//! The host's mount table: its entries and the mount flags that each entry's
//! options stand for.
use vstd::prelude::*;
use vstd::std_specs::convert::FromSpecImpl;
use vstd::string::*;

use crate::text::{
    chars_of, in_class, lemma_run_len, push_char, run_len, scan, slice_chars, CharClass,
};

verus! {

/// A set of mount flags.
#[derive(Clone, Copy, Debug, PartialEq, Eq, Structural)]
pub struct MountFlags {
    pub rdonly: bool,
    pub nosuid: bool,
    pub nodev: bool,
    pub noexec: bool,
    pub remount: bool,
    pub noatime: bool,
    pub nodiratime: bool,
    pub bind: bool,
    pub rec: bool,
    pub private: bool,
    pub relatime: bool,
}

pub const MS_RDONLY: u64 = 0x1;

pub const MS_NOSUID: u64 = 0x2;

pub const MS_NODEV: u64 = 0x4;

pub const MS_NOEXEC: u64 = 0x8;

pub const MS_REMOUNT: u64 = 0x20;

pub const MS_NOATIME: u64 = 0x400;

pub const MS_NODIRATIME: u64 = 0x800;

pub const MS_BIND: u64 = 0x1000;

pub const MS_REC: u64 = 0x4000;

pub const MS_PRIVATE: u64 = 0x4_0000;

pub const MS_RELATIME: u64 = 0x20_0000;

/// The bit if the flag is set, nothing otherwise.
#[verifier::opaque]
pub open spec fn bit_if(flag: bool, bit: u64) -> int {
    if flag {
        bit as int
    } else {
        0
    }
}

impl MountFlags {
    /// No flag set.
    pub open spec fn spec_empty() -> MountFlags {
        MountFlags {
            rdonly: false,
            nosuid: false,
            nodev: false,
            noexec: false,
            remount: false,
            noatime: false,
            nodiratime: false,
            bind: false,
            rec: false,
            private: false,
            relatime: false,
        }
    }

    /// The flags set in either of the two.
    pub open spec fn spec_union(self, other: MountFlags) -> MountFlags {
        MountFlags {
            rdonly: self.rdonly || other.rdonly,
            nosuid: self.nosuid || other.nosuid,
            nodev: self.nodev || other.nodev,
            noexec: self.noexec || other.noexec,
            remount: self.remount || other.remount,
            noatime: self.noatime || other.noatime,
            nodiratime: self.nodiratime || other.nodiratime,
            bind: self.bind || other.bind,
            rec: self.rec || other.rec,
            private: self.private || other.private,
            relatime: self.relatime || other.relatime,
        }
    }

    /// The flags as the kernel's mount call takes them: the sum of the bits
    /// of the flags that are set.
    pub open spec fn spec_bits(self) -> int {
        bit_if(self.rdonly, MS_RDONLY) + bit_if(self.nosuid, MS_NOSUID) + bit_if(
            self.nodev,
            MS_NODEV,
        ) + bit_if(self.noexec, MS_NOEXEC) + bit_if(self.remount, MS_REMOUNT) + bit_if(
            self.noatime,
            MS_NOATIME,
        ) + bit_if(self.nodiratime, MS_NODIRATIME) + bit_if(self.bind, MS_BIND) + bit_if(
            self.rec,
            MS_REC,
        ) + bit_if(self.private, MS_PRIVATE) + bit_if(self.relatime, MS_RELATIME)
    }

    /// No flag set.
    pub fn empty() -> (flags: MountFlags)
        ensures
            flags == Self::spec_empty(),
    {
        MountFlags {
            rdonly: false,
            nosuid: false,
            nodev: false,
            noexec: false,
            remount: false,
            noatime: false,
            nodiratime: false,
            bind: false,
            rec: false,
            private: false,
            relatime: false,
        }
    }

    /// The flags set in either of the two.
    pub fn union(self, other: MountFlags) -> (flags: MountFlags)
        ensures
            flags == self.spec_union(other),
    {
        MountFlags {
            rdonly: self.rdonly || other.rdonly,
            nosuid: self.nosuid || other.nosuid,
            nodev: self.nodev || other.nodev,
            noexec: self.noexec || other.noexec,
            remount: self.remount || other.remount,
            noatime: self.noatime || other.noatime,
            nodiratime: self.nodiratime || other.nodiratime,
            bind: self.bind || other.bind,
            rec: self.rec || other.rec,
            private: self.private || other.private,
            relatime: self.relatime || other.relatime,
        }
    }

    /// The flags as the kernel's mount call takes them.
    pub fn bits(self) -> (bits: u64)
        ensures
            bits == self.spec_bits(),
    {
        let mut bits: u64 = bit_of(self.rdonly, MS_RDONLY);
        bits = bits + bit_of(self.nosuid, MS_NOSUID);
        bits = bits + bit_of(self.nodev, MS_NODEV);
        bits = bits + bit_of(self.noexec, MS_NOEXEC);
        bits = bits + bit_of(self.remount, MS_REMOUNT);
        assert(bits <= 0x2f);
        bits = bits + bit_of(self.noatime, MS_NOATIME);
        bits = bits + bit_of(self.nodiratime, MS_NODIRATIME);
        bits = bits + bit_of(self.bind, MS_BIND);
        assert(bits <= 0x1c2f);
        bits = bits + bit_of(self.rec, MS_REC);
        bits = bits + bit_of(self.private, MS_PRIVATE);
        bits = bits + bit_of(self.relatime, MS_RELATIME);
        bits
    }
}

fn bit_of(flag: bool, bit: u64) -> (value: u64)
    ensures
        value == bit_if(flag, bit),
        0 <= bit_if(flag, bit) <= bit,
{
    reveal(bit_if);
    if flag {
        bit
    } else {
        0
    }
}

/// The character that separates the options of a mount entry.
pub const OPTION_SEPARATOR: char = ',';

/// The character that separates an option's name from its value.
pub const VALUE_SEPARATOR: char = '=';

/// Whether the option `name` stands at position `at` of the option list
/// `opts`: `name` is there, at the start of the list or right behind a
/// separator, and the option ends behind it or goes on with a value.
pub open spec fn option_at(opts: Seq<char>, name: Seq<char>, at: int) -> bool {
    &&& 0 <= at
    &&& at + name.len() <= opts.len()
    &&& opts.subrange(at, at + name.len()) == name
    &&& (at == 0 || opts[at - 1] == OPTION_SEPARATOR)
    &&& (at + name.len() == opts.len() || opts[at + name.len()] == OPTION_SEPARATOR || opts[at
        + name.len()] == VALUE_SEPARATOR)
}

/// Whether the option list names the option, with or without a value.
pub open spec fn has_option(opts: Seq<char>, name: Seq<char>) -> bool {
    exists|at: int| option_at(opts, name, at)
}

/// The flags that an option list stands for. Only the six options named
/// here count; every other option is passed over.
pub open spec fn flags_of_options(opts: Seq<char>) -> MountFlags {
    MountFlags {
        nosuid: has_option(opts, "nosuid"@),
        nodev: has_option(opts, "nodev"@),
        noexec: has_option(opts, "noexec"@),
        noatime: has_option(opts, "noatime"@),
        nodiratime: has_option(opts, "nodiratime"@),
        relatime: has_option(opts, "relatime"@),
        ..MountFlags::spec_empty()
    }
}

fn matches_at(opts: &Vec<char>, name: &Vec<char>, at: usize) -> (found: bool)
    requires
        at + name.len() <= opts.len(),
    ensures
        found == (opts@.subrange(at as int, at + name.len()) == name@),
{
    let mut i: usize = 0;
    while i < name.len()
        invariant
            i <= name.len(),
            at + name.len() <= opts.len(),
            opts@.subrange(at as int, at + i) == name@.subrange(0, i as int),
        decreases name.len() - i,
    {
        if opts[at + i] != name[i] {
            assert(opts@.subrange(at as int, at + name.len()) != name@) by {
                assert(opts@.subrange(at as int, at + name.len())[i as int] == opts@[at + i]);
            }
            return false;
        }
        assert(opts@.subrange(at as int, at + i + 1) =~= opts@.subrange(at as int, at + i).push(
            opts@[at + i],
        ));
        assert(name@.subrange(0, i + 1) =~= name@.subrange(0, i as int).push(name@[i as int]));
        i = i + 1;
    }
    assert(name@.subrange(0, name@.len() as int) =~= name@);
    true
}

fn chars_have_option(opts: &Vec<char>, name: &Vec<char>) -> (found: bool)
    ensures
        found == has_option(opts@, name@),
{
    if name.len() > opts.len() {
        return false;
    }
    let last: usize = opts.len() - name.len();
    let mut at: usize = 0;
    loop
        invariant
            at <= last,
            last == opts.len() - name.len(),
            name.len() <= opts.len(),
            forall|earlier: int| 0 <= earlier < at ==> !option_at(opts@, name@, earlier),
        decreases last - at,
    {
        let starts = at == 0 || opts[at - 1] == OPTION_SEPARATOR;
        let end: usize = at + name.len();
        let ends = end == opts.len() || opts[end] == OPTION_SEPARATOR || opts[end]
            == VALUE_SEPARATOR;
        if starts && ends && matches_at(opts, name, at) {
            assert(option_at(opts@, name@, at as int));
            return true;
        }
        if at == last {
            return false;
        }
        at = at + 1;
    }
}

/// Whether the option list names the option.
pub fn hasmntopt(opts: &str, name: &str) -> (found: bool)
    ensures
        found == has_option(opts@, name@),
{
    let opts_chars = chars_of(opts);
    let name_chars = chars_of(name);
    chars_have_option(&opts_chars, &name_chars)
}

/// One entry of the mount table.
#[derive(Clone, Debug, PartialEq, Eq)]
pub struct MntEntWrapper {
    /// Name of the mounted file system.
    pub mnt_fsname: String,
    /// Where it is mounted.
    pub mnt_dir: String,
    /// Its type.
    pub mnt_type: String,
    /// Its options, separated by commas.
    pub mnt_opts: String,
    /// The mount flags that the options stand for.
    pub mnt_flags: MountFlags,
}

/// The four text fields of a line of the mount table.
#[derive(Clone, Debug, PartialEq, Eq)]
pub struct MountLine {
    pub fsname: String,
    pub dir: String,
    pub fstype: String,
    pub opts: String,
}

/// A mount entry as plain values.
pub ghost struct MountEntry {
    pub fsname: Seq<char>,
    pub dir: Seq<char>,
    pub fstype: Seq<char>,
    pub opts: Seq<char>,
    pub flags: MountFlags,
}

impl View for MntEntWrapper {
    type V = MountEntry;

    open spec fn view(&self) -> MountEntry {
        MountEntry {
            fsname: self.mnt_fsname@,
            dir: self.mnt_dir@,
            fstype: self.mnt_type@,
            opts: self.mnt_opts@,
            flags: self.mnt_flags,
        }
    }
}

impl DeepView for MntEntWrapper {
    type V = MountEntry;

    open spec fn deep_view(&self) -> MountEntry {
        self@
    }
}

impl From<MountLine> for MntEntWrapper {
    /// The entry of a line: its fields as they are, and the flags that its
    /// options stand for.
    fn from(source: MountLine) -> (entry: MntEntWrapper) {
        let mut flags = MountFlags::empty();
        if hasmntopt(source.opts.as_str(), "nosuid") {
            flags.nosuid = true;
        }
        if hasmntopt(source.opts.as_str(), "nodev") {
            flags.nodev = true;
        }
        if hasmntopt(source.opts.as_str(), "noexec") {
            flags.noexec = true;
        }
        if hasmntopt(source.opts.as_str(), "noatime") {
            flags.noatime = true;
        }
        if hasmntopt(source.opts.as_str(), "nodiratime") {
            flags.nodiratime = true;
        }
        if hasmntopt(source.opts.as_str(), "relatime") {
            flags.relatime = true;
        }
        MntEntWrapper {
            mnt_fsname: source.fsname,
            mnt_dir: source.dir,
            mnt_type: source.fstype,
            mnt_opts: source.opts,
            mnt_flags: flags,
        }
    }
}

impl FromSpecImpl<MountLine> for MntEntWrapper {
    open spec fn obeys_from_spec() -> bool {
        true
    }

    open spec fn from_spec(source: MountLine) -> MntEntWrapper {
        MntEntWrapper {
            mnt_fsname: source.fsname,
            mnt_dir: source.dir,
            mnt_type: source.fstype,
            mnt_opts: source.opts,
            mnt_flags: flags_of_options(source.opts@),
        }
    }
}

/// The lines of a text: what stands between its line feeds. A line feed at
/// the very end starts no further line.
pub open spec fn lines(text: Seq<char>) -> Seq<Seq<char>>
    decreases text.len(),
{
    if text.len() == 0 {
        Seq::empty()
    } else {
        let n = run_len(text, CharClass::Line);
        if n < text.len() {
            seq![text.take(n as int)] + lines(text.skip(n as int + 1))
        } else {
            seq![text]
        }
    }
}

/// The words of a line: its longest stretches without space or tabulator.
pub open spec fn words(line: Seq<char>) -> Seq<Seq<char>>
    decreases line.len(),
{
    let blanks = run_len(line, CharClass::Blank);
    if blanks >= line.len() {
        Seq::empty()
    } else {
        let rest = line.skip(blanks as int);
        let n = run_len(rest, CharClass::Word);
        if 0 < n <= rest.len() {
            seq![rest.take(n as int)] + words(rest.skip(n as int))
        } else {
            Seq::empty()
        }
    }
}

/// The character that an escape at the start of `s` stands for, and the
/// length of the escape. The mount table writes a space, a tabulator, a line
/// feed and a backslash inside a field as a backslash and three octal
/// digits; two backslashes stand for one.
pub open spec fn escape(s: Seq<char>) -> Option<(char, nat)> {
    if s.len() >= 4 && s[0] == '\\' && s[1] == '0' && s[2] == '4' && s[3] == '0' {
        Some((' ', 4))
    } else if s.len() >= 4 && s[0] == '\\' && s[1] == '0' && s[2] == '1' && s[3] == '1' {
        Some(('\t', 4))
    } else if s.len() >= 4 && s[0] == '\\' && s[1] == '0' && s[2] == '1' && s[3] == '2' {
        Some(('\n', 4))
    } else if s.len() >= 2 && s[0] == '\\' && s[1] == '\\' {
        Some(('\\', 2))
    } else if s.len() >= 4 && s[0] == '\\' && s[1] == '1' && s[2] == '3' && s[3] == '4' {
        Some(('\\', 4))
    } else {
        None
    }
}

/// A field with its escapes resolved.
pub open spec fn unescape(s: Seq<char>) -> Seq<char>
    decreases s.len(),
{
    if s.len() == 0 {
        Seq::empty()
    } else {
        match escape(s) {
            Some((c, n)) => seq![c] + unescape(s.skip(n as int)),
            None => seq![s[0]] + unescape(s.skip(1)),
        }
    }
}

/// The field at position `k` of a line's words, empty where the line has no
/// such word.
pub open spec fn field(ws: Seq<Seq<char>>, k: int) -> Seq<char> {
    if 0 <= k < ws.len() {
        unescape(ws[k])
    } else {
        Seq::empty()
    }
}

/// A line without words, or one whose first word starts with a number sign,
/// describes no mount.
pub open spec fn is_entry(ws: Seq<Seq<char>>) -> bool {
    ws.len() > 0 && !(ws[0].len() > 0 && ws[0][0] == '#')
}

/// The entry that a line's words describe: the mounted file system, the
/// mount point, the type and the options, in this order.
pub open spec fn entry_of(ws: Seq<Seq<char>>) -> MountEntry {
    MountEntry {
        fsname: field(ws, 0),
        dir: field(ws, 1),
        fstype: field(ws, 2),
        opts: field(ws, 3),
        flags: flags_of_options(field(ws, 3)),
    }
}

/// The entries that lines describe, in the order of the lines.
pub open spec fn entries_of(ls: Seq<Seq<char>>) -> Seq<MountEntry>
    decreases ls.len(),
{
    if ls.len() == 0 {
        Seq::empty()
    } else {
        let earlier = entries_of(ls.drop_last());
        let ws = words(ls.last());
        if is_entry(ws) {
            earlier.push(entry_of(ws))
        } else {
            earlier
        }
    }
}

/// The entries of a mount table, in the order in which the table lists
/// them.
pub open spec fn mount_entries(text: Seq<char>) -> Seq<MountEntry> {
    entries_of(lines(text))
}

/// Lines listed one after the other give their entries one after the
/// other: the listing keeps the order of the table.
pub proof fn lemma_entries_in_order(first: Seq<Seq<char>>, second: Seq<Seq<char>>)
    ensures
        entries_of(first + second) == entries_of(first) + entries_of(second),
    decreases second.len(),
{
    if second.len() == 0 {
        assert(first + second =~= first);
        assert(entries_of(first) + entries_of(second) =~= entries_of(first));
    } else {
        let all = first + second;
        assert(all.drop_last() =~= first + second.drop_last());
        assert(all.last() == second.last());
        lemma_entries_in_order(first, second.drop_last());
        let ws = words(second.last());
        if is_entry(ws) {
            assert(entries_of(all) =~= entries_of(first) + entries_of(second));
        }
    }
}

fn escape_at(text: &Vec<char>, at: usize) -> (found: Option<(char, usize)>)
    requires
        at < text.len(),
    ensures
        match escape(text@.skip(at as int)) {
            Some((c, n)) => found == Some((c, n as usize)) && at + n <= text.len(),
            None => found is None,
        },
{
    let rest: usize = text.len() - at;
    let ghost s = text@.skip(at as int);
    assert(s.len() == rest);
    assert(s[0] == text@[at as int]);
    if text[at] != '\\' {
        return None;
    }
    if rest >= 2 {
        assert(s[1] == text@[at + 1]);
    }
    if rest >= 4 {
        assert(s[2] == text@[at + 2]);
        assert(s[3] == text@[at + 3]);
        let a = text[at + 1];
        let b = text[at + 2];
        let c = text[at + 3];
        if a == '0' && b == '4' && c == '0' {
            return Some((' ', 4));
        }
        if a == '0' && b == '1' && c == '1' {
            return Some(('\t', 4));
        }
        if a == '0' && b == '1' && c == '2' {
            return Some(('\n', 4));
        }
        if a == '\\' {
            return Some(('\\', 2));
        }
        if a == '1' && b == '3' && c == '4' {
            return Some(('\\', 4));
        }
        return None;
    }
    if rest >= 2 && text[at + 1] == '\\' {
        return Some(('\\', 2));
    }
    None
}

fn unescaped(word: &Vec<char>) -> (text: String)
    ensures
        text@ == unescape(word@),
{
    let mut text = String::new();
    let mut at: usize = 0;
    assert(word@.skip(0) =~= word@);
    while at < word.len()
        invariant
            at <= word.len(),
            text@ + unescape(word@.skip(at as int)) == unescape(word@),
        decreases word.len() - at,
    {
        let ghost rest = word@.skip(at as int);
        let ghost before = text@;
        assert(rest[0] == word@[at as int]);
        match escape_at(word, at) {
            Some((c, n)) => {
                push_char(&mut text, c);
                assert(rest.skip(n as int) =~= word@.skip(at + n));
                assert(text@ + unescape(word@.skip(at + n)) =~= before + unescape(rest));
                at = at + n;
            },
            None => {
                push_char(&mut text, word[at]);
                assert(rest.skip(1) =~= word@.skip(at + 1));
                assert(text@ + unescape(word@.skip(at + 1)) =~= before + unescape(rest));
                at = at + 1;
            },
        }
    }
    assert(text@ + unescape(word@.skip(at as int)) =~= text@);
    text
}

fn split_words(line: &Vec<char>) -> (found: Vec<Vec<char>>)
    ensures
        found.deep_view() == words(line@),
{
    let mut found: Vec<Vec<char>> = Vec::new();
    let mut at: usize = 0;
    assert(line@.skip(0) =~= line@);
    assert(found.deep_view() =~= Seq::empty());
    loop
        invariant
            at <= line.len(),
            found.deep_view() + words(line@.skip(at as int)) == words(line@),
        decreases line.len() - at,
    {
        let ghost tail = line@.skip(at as int);
        let ghost before = found.deep_view();
        let start = scan(line, at, CharClass::Blank);
        if start >= line.len() {
            assert(words(tail) =~= Seq::empty());
            assert(found.deep_view() =~= words(line@));
            return found;
        }
        let ghost rest = tail.skip(start - at);
        assert(rest =~= line@.skip(start as int));
        let end = scan(line, start, CharClass::Word);
        proof {
            lemma_run_len(tail, CharClass::Blank);
            assert(!in_class(CharClass::Blank, tail[start - at]));
            assert(rest[0] == tail[start - at]);
            assert(in_class(CharClass::Word, rest[0]));
            assert(run_len(rest, CharClass::Word) >= 1);
        }
        let word = slice_chars(line, start, end);
        assert(word@ =~= rest.take(end - start));
        assert(word.deep_view() =~= word@);
        assert(rest.skip(end - start) =~= line@.skip(end as int));
        found.push(word);
        assert(found.deep_view() =~= before.push(rest.take(end - start)));
        assert(words(tail) == seq![rest.take(end - start)] + words(line@.skip(end as int)));
        assert(found.deep_view() + words(line@.skip(end as int)) =~= before + words(tail));
        at = end;
    }
}

fn field_text(ws: &Vec<Vec<char>>, k: usize) -> (text: String)
    ensures
        text@ == field(ws.deep_view(), k as int),
{
    if k < ws.len() {
        assert(ws.deep_view()[k as int] == ws[k as int]@);
        unescaped(&ws[k])
    } else {
        String::new()
    }
}

/// The mount table, read and ready to be listed.
#[derive(Clone, Debug, PartialEq, Eq)]
pub struct MntEntOpener {
    text: Vec<char>,
}

impl View for MntEntOpener {
    type V = Seq<char>;

    /// The text of the table.
    closed spec fn view(&self) -> Seq<char> {
        self.text@
    }
}

impl MntEntOpener {
    /// Takes the text of a mount table.
    pub fn new(contents: &str) -> (opener: MntEntOpener)
        ensures
            opener@ == contents@,
    {
        MntEntOpener { text: chars_of(contents) }
    }

    /// Lists the entries of the table, in its order: one for every line
    /// that is not empty and no comment, with the flags that its options
    /// stand for.
    pub fn list_all(&self) -> (entries: Vec<MntEntWrapper>)
        ensures
            entries.deep_view() == mount_entries(self@),
    {
        let mut entries: Vec<MntEntWrapper> = Vec::new();
        let ghost mut seen: Seq<Seq<char>> = Seq::empty();
        let mut at: usize = 0;
        assert(self.text@.skip(0) =~= self.text@);
        assert(entries.deep_view() =~= Seq::empty());
        while at < self.text.len()
            invariant
                at <= self.text.len(),
                seen + lines(self.text@.skip(at as int)) == lines(self.text@),
                entries.deep_view() == entries_of(seen),
            decreases self.text.len() - at,
        {
            let ghost tail = self.text@.skip(at as int);
            let ghost before = entries.deep_view();
            let end = scan(&self.text, at, CharClass::Line);
            let line = slice_chars(&self.text, at, end);
            assert(line@ =~= tail.take(end - at));
            let ws = split_words(&line);
            proof {
                assert(seen.push(line@).drop_last() =~= seen);
                if end < self.text.len() {
                    assert(tail.skip(end - at + 1) =~= self.text@.skip(end + 1));
                    assert(seen.push(line@) + lines(self.text@.skip(end + 1)) =~= seen + lines(
                        tail,
                    ));
                } else {
                    assert(line@ =~= tail);
                    assert(seen.push(line@) =~= seen + lines(tail));
                }
            }
            let comment = ws.len() == 0 || (ws[0].len() > 0 && ws[0][0] == '#');
            assert(ws.len() > 0 ==> ws.deep_view()[0] == ws[0]@);
            if !comment {
                let opts = field_text(&ws, 3);
                let entry = MntEntWrapper::from(
                    MountLine {
                        fsname: field_text(&ws, 0),
                        dir: field_text(&ws, 1),
                        fstype: field_text(&ws, 2),
                        opts,
                    },
                );
                assert(entry@ == entry_of(ws.deep_view()));
                entries.push(entry);
                assert(entries.deep_view() =~= before.push(entry_of(ws.deep_view())));
            }
            proof {
                seen = seen.push(line@);
            }
            if end < self.text.len() {
                at = end + 1;
            } else {
                at = end;
                assert(self.text@.skip(at as int) =~= Seq::empty());
                assert(seen + lines(self.text@.skip(at as int)) =~= seen);
            }
        }
        assert(lines(self.text@.skip(at as int)) =~= Seq::empty());
        assert(seen =~= lines(self.text@));
        entries
    }
}

} // verus!
