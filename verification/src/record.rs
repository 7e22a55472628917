//! The stored form of a recorded session.
//!
//! A stored session names its protocol (`tcp` or `udp`) and the type of each
//! payload (`hex` or `ascii`) as text. A [`SessionRecord`] holds such a
//! document as it was read, before the names have been checked.

use crate::text::same_text;
use crate::types::{
    PayloadType, Protocol, ReplayablePayload, ReplayablePayloadView, ReplayableSession,
    ReplayableSessionView,
};
use vstd::prelude::*;

verus! {

/// One payload of a stored session.
#[derive(Debug)]
pub struct PayloadRecord {
    pub payload: String,
    pub payload_type: String,
    pub delay: u64,
}

/// What a [`PayloadRecord`] holds, as plain values.
pub struct PayloadRecordView {
    pub payload: Seq<char>,
    pub payload_type: Seq<char>,
    pub delay: u64,
}

impl View for PayloadRecord {
    type V = PayloadRecordView;

    open spec fn view(&self) -> PayloadRecordView {
        PayloadRecordView {
            payload: self.payload@,
            payload_type: self.payload_type@,
            delay: self.delay,
        }
    }
}

impl DeepView for PayloadRecord {
    type V = PayloadRecordView;

    open spec fn deep_view(&self) -> PayloadRecordView {
        self@
    }
}

/// A stored session.
#[derive(Debug)]
pub struct SessionRecord {
    pub protocol: String,
    pub payloads: Vec<PayloadRecord>,
}

/// What a [`SessionRecord`] holds, as plain values.
pub struct SessionRecordView {
    pub protocol: Seq<char>,
    pub payloads: Seq<PayloadRecordView>,
}

impl View for SessionRecord {
    type V = SessionRecordView;

    open spec fn view(&self) -> SessionRecordView {
        SessionRecordView { protocol: self.protocol@, payloads: self.payloads.deep_view() }
    }
}

/// Why a stored session cannot be used.
#[derive(Clone, Copy, PartialEq, Eq, Debug, Structural)]
pub enum RecordError {
    /// The protocol is neither `tcp` nor `udp`.
    UnknownProtocol,
    /// The type of the payload at `index` is neither `hex` nor `ascii`.
    UnknownPayloadType { index: usize },
}

/// The stored name of a protocol.
pub open spec fn protocol_tag(protocol: Protocol) -> Seq<char> {
    match protocol {
        Protocol::Tcp => "tcp"@,
        Protocol::Udp => "udp"@,
    }
}

/// The stored name of a payload type.
pub open spec fn payload_type_tag(kind: PayloadType) -> Seq<char> {
    match kind {
        PayloadType::Hex => "hex"@,
        PayloadType::Ascii => "ascii"@,
    }
}

/// The protocol that a stored name stands for.
pub open spec fn protocol_of_tag(tag: Seq<char>) -> Option<Protocol> {
    if tag == "tcp"@ {
        Some(Protocol::Tcp)
    } else if tag == "udp"@ {
        Some(Protocol::Udp)
    } else {
        None
    }
}

/// The payload type that a stored name stands for.
pub open spec fn payload_type_of_tag(tag: Seq<char>) -> Option<PayloadType> {
    if tag == "hex"@ {
        Some(PayloadType::Hex)
    } else if tag == "ascii"@ {
        Some(PayloadType::Ascii)
    } else {
        None
    }
}

/// The stored form of one payload.
pub open spec fn payload_record(payload: ReplayablePayloadView) -> PayloadRecordView {
    PayloadRecordView {
        payload: payload.payload,
        payload_type: payload_type_tag(payload.payload_type),
        delay: payload.delay,
    }
}

/// The stored form of a session: every payload in its place.
pub open spec fn session_record(session: ReplayableSessionView) -> SessionRecordView {
    SessionRecordView {
        protocol: protocol_tag(session.protocol),
        payloads: session.payloads.map_values(|p: ReplayablePayloadView| payload_record(p)),
    }
}

/// Whether the payload type of every record before `end` is known.
pub open spec fn types_known(records: Seq<PayloadRecordView>, end: int) -> bool {
    forall|i: int| 0 <= i < end ==> payload_type_of_tag(#[trigger] records[i].payload_type) is Some
}

/// Whether the record at `index` is the first whose payload type is not
/// known.
pub open spec fn is_first_unknown(records: Seq<PayloadRecordView>, index: int) -> bool {
    &&& 0 <= index < records.len()
    &&& types_known(records, index)
    &&& payload_type_of_tag(records[index].payload_type) is None
}

/// The place of the first record whose payload type is not known, where
/// there is one.
pub open spec fn first_unknown(records: Seq<PayloadRecordView>) -> int {
    choose|index: int| is_first_unknown(records, index)
}

/// The payload that a record stands for, where its type is known.
pub open spec fn payload_of_record(record: PayloadRecordView) -> ReplayablePayloadView {
    ReplayablePayloadView {
        payload: record.payload,
        payload_type: payload_type_of_tag(record.payload_type).unwrap(),
        delay: record.delay,
    }
}

/// The session that a stored session stands for, or what is wrong with it:
/// an unknown protocol first, else the first payload of unknown type.
pub open spec fn session_of_record(record: SessionRecordView) -> Result<
    ReplayableSessionView,
    RecordError,
> {
    match protocol_of_tag(record.protocol) {
        None => Err(RecordError::UnknownProtocol),
        Some(protocol) => if types_known(record.payloads, record.payloads.len() as int) {
            Ok(
                ReplayableSessionView {
                    protocol,
                    payloads: record.payloads.map_values(
                        |r: PayloadRecordView| payload_of_record(r),
                    ),
                },
            )
        } else {
            Err(RecordError::UnknownPayloadType { index: first_unknown(record.payloads) as usize })
        },
    }
}

impl Protocol {
    /// The stored name of this protocol: `tcp` or `udp`.
    pub fn tag(&self) -> (r: &'static str)
        ensures
            r@ == protocol_tag(*self),
    {
        match self {
            Protocol::Tcp => "tcp",
            Protocol::Udp => "udp",
        }
    }

    /// The protocol with the stored name `tag`, if there is one.
    pub fn from_tag(tag: &str) -> (r: Option<Protocol>)
        ensures
            r == protocol_of_tag(tag@),
    {
        if same_text(tag, "tcp") {
            Some(Protocol::Tcp)
        } else if same_text(tag, "udp") {
            Some(Protocol::Udp)
        } else {
            None
        }
    }
}

impl PayloadType {
    /// The stored name of this payload type: `hex` or `ascii`.
    pub fn tag(&self) -> (r: &'static str)
        ensures
            r@ == payload_type_tag(*self),
    {
        match self {
            PayloadType::Hex => "hex",
            PayloadType::Ascii => "ascii",
        }
    }

    /// The payload type with the stored name `tag`, if there is one.
    pub fn from_tag(tag: &str) -> (r: Option<PayloadType>)
        ensures
            r == payload_type_of_tag(tag@),
    {
        if same_text(tag, "hex") {
            Some(PayloadType::Hex)
        } else if same_text(tag, "ascii") {
            Some(PayloadType::Ascii)
        } else {
            None
        }
    }
}

impl ReplayableSession {
    /// The stored form of this session.
    pub fn to_record(&self) -> (r: SessionRecord)
        ensures
            r@ == session_record(self@),
    {
        let mut payloads: Vec<PayloadRecord> = Vec::new();
        let mut i: usize = 0;
        while i < self.payloads.len()
            invariant
                i <= self.payloads.len(),
                payloads.len() == i,
                forall|k: int| 0 <= k < i ==> payloads[k]@ == payload_record(self.payloads[k]@),
            decreases self.payloads.len() - i,
        {
            let p = &self.payloads[i];
            payloads.push(
                PayloadRecord {
                    payload: p.payload.clone(),
                    payload_type: String::from_str(p.payload_type.tag()),
                    delay: p.delay,
                },
            );
            i += 1;
        }
        assert(payloads.deep_view() =~= session_record(self@).payloads);
        SessionRecord { protocol: String::from_str(self.protocol.tag()), payloads }
    }

    /// The session that `record` stands for. A record whose protocol or
    /// payload types are not known names is turned down.
    pub fn from_record(record: &SessionRecord) -> (r: Result<ReplayableSession, RecordError>)
        ensures
            r is Ok <==> session_of_record(record@) is Ok,
            r matches Ok(session) ==> Ok::<ReplayableSessionView, RecordError>(session@)
                == session_of_record(record@),
            r matches Err(e) ==> Err::<ReplayableSessionView, RecordError>(e) == session_of_record(
                record@,
            ),
    {
        let protocol = match Protocol::from_tag(record.protocol.as_str()) {
            Some(protocol) => protocol,
            None => {
                return Err(RecordError::UnknownProtocol);
            },
        };
        let ghost records = record@.payloads;
        let mut payloads: Vec<ReplayablePayload> = Vec::new();
        let mut i: usize = 0;
        while i < record.payloads.len()
            invariant
                i <= record.payloads.len(),
                records == record.payloads.deep_view(),
                records == record@.payloads,
                protocol_of_tag(record@.protocol) == Some(protocol),
                payloads.len() == i,
                types_known(records, i as int),
                forall|k: int| 0 <= k < i ==> payloads[k]@ == payload_of_record(records[k]),
            decreases record.payloads.len() - i,
        {
            let r = &record.payloads[i];
            assert(r@ == records[i as int]);
            match PayloadType::from_tag(r.payload_type.as_str()) {
                Some(kind) => {
                    payloads.push(
                        ReplayablePayload {
                            payload: r.payload.clone(),
                            payload_type: kind,
                            delay: r.delay,
                        },
                    );
                },
                None => {
                    proof {
                        lemma_first_unknown_type(records, i as int);
                    }
                    return Err(RecordError::UnknownPayloadType { index: i });
                },
            }
            i += 1;
        }
        assert(payloads.deep_view() =~= records.map_values(
            |r: PayloadRecordView| payload_of_record(r),
        ));
        Ok(ReplayableSession { protocol, payloads })
    }
}

/// The first payload of unknown type is the one that [`session_of_record`]
/// names.
pub proof fn lemma_first_unknown_type(records: Seq<PayloadRecordView>, first: int)
    requires
        is_first_unknown(records, first),
    ensures
        !types_known(records, records.len() as int),
        first_unknown(records) == first,
{
    let chosen = first_unknown(records);
    assert(is_first_unknown(records, chosen));
    if chosen < first {
        assert(payload_type_of_tag(records[chosen].payload_type) is Some);
    }
    if first < chosen {
        assert(payload_type_of_tag(records[first].payload_type) is Some);
    }
}

/// Each stored name stands for the protocol or payload type it was written
/// for.
pub proof fn lemma_tags_round_trip(protocol: Protocol, kind: PayloadType)
    ensures
        protocol_of_tag(protocol_tag(protocol)) == Some(protocol),
        payload_type_of_tag(payload_type_tag(kind)) == Some(kind),
{
    reveal_strlit("tcp");
    reveal_strlit("udp");
    reveal_strlit("hex");
    reveal_strlit("ascii");
    assert("tcp"@[0] != "udp"@[0]);
    assert("hex"@.len() != "ascii"@.len());
}

/// Round trip of the stored form: the record of any session stands for that
/// session, payloads, types, delays and order unchanged.
pub proof fn lemma_record_round_trip(session: ReplayableSessionView)
    ensures
        session_of_record(session_record(session)) == Ok::<ReplayableSessionView, RecordError>(
            session,
        ),
{
    let record = session_record(session);
    lemma_tags_round_trip(session.protocol, PayloadType::Hex);
    assert forall|i: int| 0 <= i < record.payloads.len() implies payload_type_of_tag(
        #[trigger] record.payloads[i].payload_type,
    ) is Some && payload_of_record(record.payloads[i]) == session.payloads[i] by {
        lemma_tags_round_trip(session.protocol, session.payloads[i].payload_type);
    }
    assert(record.payloads.map_values(|r: PayloadRecordView| payload_of_record(r))
        =~= session.payloads);
}

} // verus!
