//! The stack of the sandbox's first process: a region of memory with a
//! guard page below it, so that a stack that overflows faults at once.
use vstd::prelude::*;

verus! {

/// Page size assumed where the host does not tell its own.
pub const DEFAULT_PAGE_SIZE: usize = 4096;

/// Calls `nix::unistd::sysconf` for the page size and hands on the limit it
/// reports, or nothing where the call fails or reports no limit. Nothing is
/// stated of the number: it is the host's.
#[verifier::external_body]
fn sysconf_page_size() -> (answer: Option<i64>) {
    match nix::unistd::sysconf(nix::unistd::SysconfVar::PAGE_SIZE) {
        Ok(Some(x)) => Some(i64::from(x)),
        _ => None,
    }
}

/// The page size to work with, given what the host said of its own.
pub open spec fn spec_page_size_from(answer: Option<i64>) -> usize {
    match answer {
        Some(x) => x as usize,
        None => DEFAULT_PAGE_SIZE,
    }
}

/// The page size to work with, given what the host said of its own: the
/// host's, or the default where it said nothing.
pub fn page_size_from(answer: Option<i64>) -> (size: usize)
    ensures
        size == spec_page_size_from(answer),
{
    match answer {
        Some(x) => #[verifier::truncate]
        (x as usize),
        None => DEFAULT_PAGE_SIZE,
    }
}

/// The page size of the host, or the default where the host does not tell.
pub fn page_size() -> (size: usize) {
    page_size_from(sysconf_page_size())
}

/// Why no stack can be laid out.
#[derive(Clone, Copy, Debug, PartialEq, Eq, Structural)]
pub enum StackError {
    /// The size asked for is no positive multiple of the page size, or the
    /// region would not fit the address space.
    InvalidArgument,
}

/// Whether a stack of `stack_size` bytes can be laid out in pages of
/// `page_size` bytes: the size is a positive multiple of the page size, and
/// the stack and its guard page together have a size that the machine can
/// express.
pub open spec fn stack_fits(stack_size: usize, page_size: usize) -> bool {
    &&& page_size > 0
    &&& stack_size > 0
    &&& stack_size % page_size == 0
    &&& stack_size + page_size <= usize::MAX
}

/// A part of a mapping, by its offset from the base and its length.
#[derive(Clone, Copy, Debug, PartialEq, Eq, Structural)]
pub struct Region {
    pub offset: usize,
    pub len: usize,
}

/// The layout of a stack mapping: the guard page at its base, which stays
/// inaccessible, and the stack above it.
#[derive(Clone, Copy, Debug, PartialEq, Eq, Structural)]
pub struct StackMap {
    stack_size: usize,
    mmap_size: usize,
}

impl StackMap {
    /// The stack is not empty, and the mapping has room for more.
    #[verifier::type_invariant]
    closed spec fn inv(&self) -> bool {
        0 < self.stack_size < self.mmap_size
    }

    /// Size of the stack proper.
    pub closed spec fn spec_stack_size(&self) -> usize {
        self.stack_size
    }

    /// Size of the whole mapping.
    pub closed spec fn spec_mmap_size(&self) -> usize {
        self.mmap_size
    }

    /// Whether `map` is the answer to a request for a stack of `stack_size`
    /// bytes in pages of `page_size` bytes: the stack with one page more
    /// where that fits, a refusal otherwise.
    pub open spec fn lays_out(
        map: Result<StackMap, StackError>,
        stack_size: usize,
        page_size: usize,
    ) -> bool {
        if stack_fits(stack_size, page_size) {
            map matches Ok(m) && m.spec_stack_size() == stack_size && m.spec_mmap_size()
                == stack_size + page_size
        } else {
            map matches Err(e) && e == StackError::InvalidArgument
        }
    }

    /// Lays out a stack of `stack_size` bytes in pages of `page_size` bytes.
    pub fn layout(stack_size: usize, page_size: usize) -> (map: Result<StackMap, StackError>)
        ensures
            Self::lays_out(map, stack_size, page_size),
    {
        if page_size == 0 || stack_size == 0 || stack_size % page_size != 0 {
            return Err(StackError::InvalidArgument);
        }
        if stack_size > usize::MAX - page_size {
            return Err(StackError::InvalidArgument);
        }
        Ok(StackMap { stack_size, mmap_size: stack_size + page_size })
    }

    /// Lays out a stack of `stack_size` bytes in pages of the host's size.
    ///
    /// The host decides the page size, and with it whether the size asked
    /// for is a multiple of it. Whatever the page size, a size of zero is
    /// refused, the only refusal is that of an invalid argument, and a
    /// layout has the size asked for and, below it, a guard of one page: the
    /// guard is not empty and the stack is a whole number of guards.
    pub fn new(stack_size: usize) -> (map: Result<StackMap, StackError>)
        ensures
            stack_size == 0 ==> map is Err,
            map matches Ok(m) ==> {
                &&& m.spec_stack_size() == stack_size
                &&& m.spec_mmap_size() > stack_size
                &&& stack_fits(stack_size, (m.spec_mmap_size() - stack_size) as usize)
            },
            map matches Err(e) ==> e == StackError::InvalidArgument,
    {
        let page = page_size();
        let map = Self::layout(stack_size, page);
        assert(Self::lays_out(map, stack_size, page));
        map
    }

    /// Size of the stack proper.
    pub fn stack_size(&self) -> (size: usize)
        ensures
            size == self.spec_stack_size(),
            size > 0,
    {
        proof {
            use_type_invariant(self);
        }
        self.stack_size
    }

    /// Size of the whole mapping.
    pub fn mmap_size(&self) -> (size: usize)
        ensures
            size == self.spec_mmap_size(),
            size > self.spec_stack_size(),
    {
        proof {
            use_type_invariant(self);
        }
        self.mmap_size
    }

    /// The part of the mapping that is the stack, to be made readable and
    /// writable: all of it above the guard page.
    pub fn as_slice(&self) -> (stack: Region)
        ensures
            stack.offset == self.spec_mmap_size() - self.spec_stack_size(),
            stack.len == self.spec_stack_size(),
            stack.offset > 0,
    {
        proof {
            use_type_invariant(self);
        }
        Region { offset: self.mmap_size - self.stack_size, len: self.stack_size }
    }
}

} // verus!
