//! Read Device Identification (function 0x2B, MEI type 0x0E): request layout
//! and recursive decoding of the variable-length object list.

use vstd::prelude::*;

use crate::errors::DecodeError;

verus! {

/// Function code of the Read Device Identification operation.
pub const READ_DEVICE_IDENTIFICATION: u8 = 0x2B;

/// MEI type sent with every Read Device Identification request.
pub const MEI_CODE: u8 = 0x0E;

/// Which tier of identification objects a request asks for.
#[derive(Debug, Clone, Copy, PartialEq, Eq, Structural)]
pub enum DeviceIdentificationCode {
    Basic,
    Regular,
    Extended,
    Individual,
    Unknown,
}

/// Wire byte a code is sent as.
pub open spec fn id_code_byte(code: DeviceIdentificationCode) -> u8 {
    match code {
        DeviceIdentificationCode::Basic => 1,
        DeviceIdentificationCode::Regular => 2,
        DeviceIdentificationCode::Extended => 3,
        DeviceIdentificationCode::Individual => 4,
        DeviceIdentificationCode::Unknown => 0xFF,
    }
}

/// Code a received byte denotes. Bytes 2 and 3 map to `Extended` and
/// `Regular` — deliberately not the inverse of `id_code_byte`, which sends
/// `Regular` as 2 and `Extended` as 3; the decode direction keeps the
/// device-facing behaviour this library reproduces. Any other byte is the
/// explicit `Unknown`, never a silent default.
pub open spec fn id_code_of_byte(b: u8) -> DeviceIdentificationCode {
    if b == 1 {
        DeviceIdentificationCode::Basic
    } else if b == 2 {
        DeviceIdentificationCode::Extended
    } else if b == 3 {
        DeviceIdentificationCode::Regular
    } else if b == 4 {
        DeviceIdentificationCode::Individual
    } else {
        DeviceIdentificationCode::Unknown
    }
}

impl DeviceIdentificationCode {
    /// The byte this code is sent as.
    pub fn to_byte(self) -> (r: u8)
        ensures
            r == id_code_byte(self),
    {
        match self {
            DeviceIdentificationCode::Basic => 1,
            DeviceIdentificationCode::Regular => 2,
            DeviceIdentificationCode::Extended => 3,
            DeviceIdentificationCode::Individual => 4,
            DeviceIdentificationCode::Unknown => 0xFF,
        }
    }

    /// The code a received byte denotes.
    pub fn from_byte(b: u8) -> (r: Self)
        ensures
            r == id_code_of_byte(b),
    {
        if b == 1 {
            DeviceIdentificationCode::Basic
        } else if b == 2 {
            DeviceIdentificationCode::Extended
        } else if b == 3 {
            DeviceIdentificationCode::Regular
        } else if b == 4 {
            DeviceIdentificationCode::Individual
        } else {
            DeviceIdentificationCode::Unknown
        }
    }
}

/// Conformity tier a device declares for the identification sub-protocol.
#[derive(Debug, Clone, Copy, PartialEq, Eq, Structural)]
pub enum DeviceConformity {
    Basic,
    Regular,
    Extended,
    BasicWithIndividual,
    RegularWithIndividual,
    ExtendedWithIndividual,
    Unknown,
}

/// Conformity level a received byte denotes: 1, 2, 3 for the plain tiers and
/// 0x81, 0x82, 0x83 for the same tiers with individual access, in declared
/// order. Any other byte is the explicit `Unknown`, never a silent default.
pub open spec fn conformity_of_byte(b: u8) -> DeviceConformity {
    if b == 1 {
        DeviceConformity::Basic
    } else if b == 2 {
        DeviceConformity::Regular
    } else if b == 3 {
        DeviceConformity::Extended
    } else if b == 0x81 {
        DeviceConformity::BasicWithIndividual
    } else if b == 0x82 {
        DeviceConformity::RegularWithIndividual
    } else if b == 0x83 {
        DeviceConformity::ExtendedWithIndividual
    } else {
        DeviceConformity::Unknown
    }
}

impl DeviceConformity {
    /// The conformity level a received byte denotes.
    pub fn from_byte(b: u8) -> (r: Self)
        ensures
            r == conformity_of_byte(b),
    {
        if b == 1 {
            DeviceConformity::Basic
        } else if b == 2 {
            DeviceConformity::Regular
        } else if b == 3 {
            DeviceConformity::Extended
        } else if b == 0x81 {
            DeviceConformity::BasicWithIndividual
        } else if b == 0x82 {
            DeviceConformity::RegularWithIndividual
        } else if b == 0x83 {
            DeviceConformity::ExtendedWithIndividual
        } else {
            DeviceConformity::Unknown
        }
    }
}

/// One identification object: a tag, a declared length, and exactly that many
/// value bytes.
#[derive(Debug, Clone, PartialEq, Eq)]
pub struct DeviceIDObject {
    pub id: u8,
    pub length: u8,
    pub value: Vec<u8>,
}

/// Mathematical image of a `DeviceIDObject`.
pub struct DeviceIDObjectView {
    pub id: u8,
    pub length: u8,
    pub value: Seq<u8>,
}

impl View for DeviceIDObject {
    type V = DeviceIDObjectView;

    open spec fn view(&self) -> DeviceIDObjectView {
        DeviceIDObjectView { id: self.id, length: self.length, value: self.value@ }
    }
}

/// The byte frame of one object: its tag, its value's length, then the value.
pub open spec fn object_frame(id: u8, value: Seq<u8>) -> Seq<u8>
    recommends
        value.len() <= 255,
{
    seq![id, value.len() as u8] + value
}

/// Full decoded Read Device Identification response.
#[derive(Debug, Clone, PartialEq, Eq)]
pub struct DeviceIdentification {
    pub mei_type: u8,
    pub read_device_id_code: DeviceIdentificationCode,
    pub conformity_level: DeviceConformity,
    pub more_follows: u8,
    pub next_object_id: u8,
    pub number_of_objects: u8,
    pub objects: Vec<DeviceIDObject>,
}

/// Mathematical image of a `DeviceIdentification`.
pub struct DeviceIdentificationView {
    pub mei_type: u8,
    pub read_device_id_code: DeviceIdentificationCode,
    pub conformity_level: DeviceConformity,
    pub more_follows: u8,
    pub next_object_id: u8,
    pub number_of_objects: u8,
    pub objects: Seq<DeviceIDObjectView>,
}

impl View for DeviceIdentification {
    type V = DeviceIdentificationView;

    open spec fn view(&self) -> DeviceIdentificationView {
        DeviceIdentificationView {
            mei_type: self.mei_type,
            read_device_id_code: self.read_device_id_code,
            conformity_level: self.conformity_level,
            more_follows: self.more_follows,
            next_object_id: self.next_object_id,
            number_of_objects: self.number_of_objects,
            objects: self.objects@.map_values(|o: DeviceIDObject| o@),
        }
    }
}

/// Parse `count` (id, length, value) frames from the front of `bytes`.
/// `None` when the bytes run out before the declared frames do; bytes left
/// over after the last frame are ignored.
pub open spec fn parse_objects(bytes: Seq<u8>, count: nat) -> Option<Seq<DeviceIDObjectView>>
    decreases count,
{
    if count == 0 {
        Some(Seq::empty())
    } else if bytes.len() >= 2 && bytes.len() >= 2 + bytes[1] {
        let frame_len = 2 + bytes[1] as int;
        let object = DeviceIDObjectView {
            id: bytes[0],
            length: bytes[1],
            value: bytes.subrange(2, frame_len),
        };
        match parse_objects(bytes.skip(frame_len), (count - 1) as nat) {
            Some(rest) => Some(seq![object] + rest),
            None => None,
        }
    } else {
        None
    }
}

/// The identification structure a payload denotes: six fixed header bytes,
/// then exactly `number_of_objects` variable-length frames. `None` when the
/// payload is exhausted before the header or the declared objects are.
pub open spec fn parse_device_identification(bytes: Seq<u8>) -> Option<DeviceIdentificationView> {
    if bytes.len() < 6 {
        None
    } else {
        match parse_objects(bytes.skip(6), bytes[5] as nat) {
            Some(objects) => Some(
                DeviceIdentificationView {
                    mei_type: bytes[0],
                    read_device_id_code: id_code_of_byte(bytes[1]),
                    conformity_level: conformity_of_byte(bytes[2]),
                    more_follows: bytes[3],
                    next_object_id: bytes[4],
                    number_of_objects: bytes[5],
                    objects,
                },
            ),
            None => None,
        }
    }
}

/// Builds Read Device Identification requests and decodes their responses.
pub struct DeviceIdentificationCodec;

impl DeviceIdentificationCodec {
    /// Encode a Read Device Identification request: the MEI type, the code
    /// byte, and the first object to read.
    pub fn build_request(id_code: DeviceIdentificationCode, object_id: u8) -> (r: Vec<u8>)
        ensures
            r@ == seq![MEI_CODE, id_code_byte(id_code), object_id],
    {
        let mut r: Vec<u8> = Vec::new();
        r.push(MEI_CODE);
        r.push(id_code.to_byte());
        r.push(object_id);
        proof {
            assert(r@ =~= seq![MEI_CODE, id_code_byte(id_code), object_id]);
        }
        r
    }

    /// Decode a Read Device Identification response payload. Every read is
    /// bounds-checked: a payload exhausted before the fixed header or before
    /// all declared object frames is rejected as truncated, never a panic and
    /// never a partial object list.
    pub fn parse_response(payload: &[u8]) -> (r: Result<DeviceIdentification, DecodeError>)
        ensures
            r is Ok <==> parse_device_identification(payload@) is Some,
            r matches Ok(d) ==> parse_device_identification(payload@) == Some(d@),
            r matches Err(e) ==> e == DecodeError::Truncated,
    {
        if payload.len() < 6 {
            return Err(DecodeError::Truncated);
        }
        let mei_type = payload[0];
        let read_device_id_code = DeviceIdentificationCode::from_byte(payload[1]);
        let conformity_level = DeviceConformity::from_byte(payload[2]);
        let more_follows = payload[3];
        let next_object_id = payload[4];
        let number_of_objects = payload[5];

        let mut objects: Vec<DeviceIDObject> = Vec::new();
        let mut cursor: usize = 6;
        let mut k: u8 = 0;
        while k < number_of_objects
            invariant
                payload@.len() >= 6,
                number_of_objects == payload@[5],
                k <= number_of_objects,
                6 <= cursor <= payload@.len(),
                objects@.len() == k,
                parse_objects(payload@.skip(6), number_of_objects as nat) is Some
                    <==> parse_objects(
                    payload@.skip(cursor as int),
                    (number_of_objects - k) as nat,
                ) is Some,
                parse_objects(payload@.skip(cursor as int), (number_of_objects - k) as nat)
                    matches Some(rest) ==> parse_objects(
                    payload@.skip(6),
                    number_of_objects as nat,
                ) == Some(objects@.map_values(|o: DeviceIDObject| o@) + rest),
            decreases number_of_objects - k,
        {
            let remaining = payload.len() - cursor;
            if remaining < 2 {
                return Err(DecodeError::Truncated);
            }
            let object_id = payload[cursor];
            let object_len = payload[cursor + 1];
            if remaining - 2 < object_len as usize {
                return Err(DecodeError::Truncated);
            }
            let frame_len = 2 + object_len as usize;
            let mut value: Vec<u8> = Vec::new();
            let mut j: usize = 0;
            while j < object_len as usize
                invariant
                    payload@.len() <= usize::MAX,
                    cursor + 2 + object_len as int <= payload@.len(),
                    j <= object_len,
                    value@.len() == j,
                    forall|t: int| 0 <= t < j ==> value@[t] == payload@[cursor + 2 + t],
                decreases object_len as int - j,
            {
                value.push(payload[cursor + 2 + j]);
                j = j + 1;
            }
            let object = DeviceIDObject { id: object_id, length: object_len, value };
            proof {
                let rem = payload@.skip(cursor as int);
                assert(rem.len() >= 2 + rem[1]);
                assert(rem[0] == payload@[cursor as int]);
                assert(rem[1] == payload@[cursor as int + 1]);
                assert(object@.value =~= rem.subrange(2, 2 + rem[1] as int));
                assert(rem.skip(2 + rem[1] as int) =~= payload@.skip(
                    cursor as int + frame_len as int,
                ));
                assert(objects@.push(object).map_values(|o: DeviceIDObject| o@) =~= objects@
                    .map_values(|o: DeviceIDObject| o@).push(object@));
                assert(forall|head: DeviceIDObjectView, rest: Seq<DeviceIDObjectView>, pre: Seq<
                    DeviceIDObjectView,
                >| (pre.push(head) + rest) =~= pre + (seq![head] + rest));
            }
            objects.push(object);
            cursor = cursor + frame_len;
            k = k + 1;
        }
        let record = DeviceIdentification {
            mei_type,
            read_device_id_code,
            conformity_level,
            more_follows,
            next_object_id,
            number_of_objects,
            objects,
        };
        proof {
            assert(record@.objects + Seq::<DeviceIDObjectView>::empty() =~= record@.objects);
        }
        Ok(record)
    }
}

/// Decoding holds no hidden state: the structure a payload denotes is a
/// function of the payload bytes alone, so two decodes of one buffer — and
/// `parse_response`, whose contract pins its result to
/// `parse_device_identification` — give structurally equal results.
pub proof fn lemma_device_identification_decode_deterministic(
    payload: Seq<u8>,
    first: Option<DeviceIdentificationView>,
    second: Option<DeviceIdentificationView>,
)
    requires
        first == parse_device_identification(payload),
        second == parse_device_identification(payload),
    ensures
        first == second,
{
}

/// A response declaring two objects and carrying exactly two well-formed
/// (id, length, value) frames decodes to an object list of length two whose
/// tags, lengths and values match the frames exactly.
pub proof fn lemma_device_identification_two_objects(
    bytes: Seq<u8>,
    header: Seq<u8>,
    id0: u8,
    value0: Seq<u8>,
    id1: u8,
    value1: Seq<u8>,
)
    requires
        header.len() == 6,
        header[5] == 2,
        value0.len() <= 255,
        value1.len() <= 255,
        bytes == header + object_frame(id0, value0) + object_frame(id1, value1),
    ensures
        parse_device_identification(bytes) matches Some(d) && {
            &&& d.number_of_objects == 2
            &&& d.objects.len() == 2
            &&& d.objects[0] == DeviceIDObjectView {
                id: id0,
                length: value0.len() as u8,
                value: value0,
            }
            &&& d.objects[1] == DeviceIDObjectView {
                id: id1,
                length: value1.len() as u8,
                value: value1,
            }
        },
{
    let object0 = DeviceIDObjectView { id: id0, length: value0.len() as u8, value: value0 };
    let object1 = DeviceIDObjectView { id: id1, length: value1.len() as u8, value: value1 };
    let rest0 = bytes.skip(6);
    assert(rest0 =~= object_frame(id0, value0) + object_frame(id1, value1));
    let rest1 = rest0.skip(2 + value0.len() as int);
    assert(rest1 =~= object_frame(id1, value1));
    let rest2 = rest1.skip(2 + value1.len() as int);
    assert(rest2 =~= Seq::<u8>::empty());
    assert(parse_objects(rest2, 0) == Some(Seq::<DeviceIDObjectView>::empty()));
    assert(rest1[1] == value1.len() as u8 && rest1.len() == 2 + value1.len());
    assert(rest1.subrange(2, 2 + value1.len() as int) =~= value1);
    assert(parse_objects(rest1, 1) == Some(seq![object1] + Seq::<DeviceIDObjectView>::empty()));
    assert(rest0[1] == value0.len() as u8 && rest0.len() >= 2 + value0.len());
    assert(rest0.subrange(2, 2 + value0.len() as int) =~= value0);
    assert(parse_objects(rest0, 2) == Some(
        seq![object0] + (seq![object1] + Seq::<DeviceIDObjectView>::empty()),
    ));
    let objects = seq![object0] + (seq![object1] + Seq::<DeviceIDObjectView>::empty());
    assert(objects.len() == 2 && objects[0] == object0 && objects[1] == object1);
    assert(bytes[5] == 2 && bytes.len() >= 6);
}

} // verus!
