use bb_runner::resource::{Duration, PosixResourceUsage, ProtoDuration, ResourceUsage};
use prost::bytes::{Buf, BufMut};
use prost::encoding::{int64, message, skip_field, DecodeContext, WireType};
use prost::{DecodeError, Message, Name};
use prost_types::Any;

/// The usage message as it goes over the wire.
#[derive(Clone, Debug, Default, PartialEq)]
struct UsageMessage {
    user_time: Option<prost_types::Duration>,
    system_time: Option<prost_types::Duration>,
    maximum_resident_set_size: i64,
}

impl Message for UsageMessage {
    fn encode_raw(&self, buf: &mut impl BufMut) {
        if let Some(ref value) = self.user_time {
            message::encode(1, value, buf);
        }
        if let Some(ref value) = self.system_time {
            message::encode(2, value, buf);
        }
        if self.maximum_resident_set_size != 0 {
            int64::encode(3, &self.maximum_resident_set_size, buf);
        }
    }

    fn merge_field(
        &mut self,
        tag: u32,
        wire_type: WireType,
        buf: &mut impl Buf,
        ctx: DecodeContext,
    ) -> Result<(), DecodeError> {
        match tag {
            1 => message::merge(
                wire_type,
                self.user_time.get_or_insert_with(Default::default),
                buf,
                ctx,
            ),
            2 => message::merge(
                wire_type,
                self.system_time.get_or_insert_with(Default::default),
                buf,
                ctx,
            ),
            3 => int64::merge(wire_type, &mut self.maximum_resident_set_size, buf, ctx),
            _ => skip_field(wire_type, tag, buf, ctx),
        }
    }

    fn encoded_len(&self) -> usize {
        let mut len = 0;
        if let Some(ref value) = self.user_time {
            len += message::encoded_len(1, value);
        }
        if let Some(ref value) = self.system_time {
            len += message::encoded_len(2, value);
        }
        if self.maximum_resident_set_size != 0 {
            len += int64::encoded_len(3, &self.maximum_resident_set_size);
        }
        len
    }

    fn clear(&mut self) {
        *self = UsageMessage::default();
    }
}

impl Name for UsageMessage {
    const NAME: &'static str = "POSIXResourceUsage";
    const PACKAGE: &'static str = "buildbarn.resourceusage";

    fn type_url() -> String {
        String::from(PosixResourceUsage::type_url())
    }
}

fn to_message(record: &PosixResourceUsage) -> UsageMessage {
    let convert = |d: ProtoDuration| prost_types::Duration { seconds: d.seconds, nanos: d.nanos };
    UsageMessage {
        user_time: record.user_time.map(convert),
        system_time: record.system_time.map(convert),
        maximum_resident_set_size: record.maximum_resident_set_size,
    }
}

fn from_message(message: &UsageMessage) -> PosixResourceUsage {
    let convert = |d: prost_types::Duration| ProtoDuration { seconds: d.seconds, nanos: d.nanos };
    PosixResourceUsage {
        user_time: message.user_time.map(convert),
        system_time: message.system_time.map(convert),
        maximum_resident_set_size: message.maximum_resident_set_size,
    }
}

fn round_trip(usage: ResourceUsage) {
    let record = PosixResourceUsage::from(usage);
    let any = Any::from_msg(&to_message(&record)).unwrap();
    assert_eq!(any.type_url, "type.googleapis.com/buildbarn.resourceusage.POSIXResourceUsage");
    let decoded: UsageMessage = any.to_msg().unwrap();
    assert_eq!(from_message(&decoded), record);
}

#[test]
fn usage_record_survives_the_trip_through_any() {
    round_trip(ResourceUsage {
        utime: Duration::from_micros(1_500_000),
        stime: Duration::from_micros(250),
        maxrss: 2048,
    });
}

#[test]
fn usage_record_of_an_idle_process_survives_the_trip() {
    round_trip(ResourceUsage {
        utime: Duration::from_micros(0),
        stime: Duration::from_micros(0),
        maxrss: 0,
    });
}

#[test]
fn usage_record_at_the_limits_survives_the_trip() {
    round_trip(ResourceUsage {
        utime: Duration::from_micros(u64::MAX),
        stime: Duration::from_micros(999_999),
        maxrss: i64::MAX as u64,
    });
}

#[test]
fn any_of_another_type_is_not_taken_for_a_usage_record() {
    let any = Any { type_url: String::from("type.googleapis.com/other.Message"), value: vec![] };
    assert!(any.to_msg::<UsageMessage>().is_err());
}
