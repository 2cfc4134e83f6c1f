//! Identifiers and the enumerations of the domain, with their textual forms.
//!
//! Every identifier is a distinct newtype around the 128-bit value of a UUID,
//! so that one kind of id cannot be passed where another is expected.
use vstd::prelude::*;
use crate::text::{lemma_hex_fixed_injective, lemma_hex_fixed_len, pow16, spec_hex_fixed};

verus! {

/// The value that `uuid::Uuid::parse_str` gives for a text, if it accepts it.
pub uninterp spec fn uuid_parse_result(s: Seq<char>) -> Option<u128>;

/// The canonical (hyphenated, lower-case) text of a UUID value:
/// 8-4-4-4-12 hexadecimal digits separated by `-`.
pub open spec fn spec_uuid_text(x: nat) -> Seq<char> {
    let h = spec_hex_fixed(x, 32, false);
    h.subrange(0, 8) + seq!['-'] + h.subrange(8, 12) + seq!['-'] + h.subrange(12, 16)
        + seq!['-'] + h.subrange(16, 20) + seq!['-'] + h.subrange(20, 32)
}

/// The text of a UUID value determines the value: two ids with the same
/// text are the same id.
pub proof fn lemma_uuid_text_injective(x: u128, y: u128)
    requires
        spec_uuid_text(x as nat) == spec_uuid_text(y as nat),
    ensures
        x == y,
{
    let hx = spec_hex_fixed(x as nat, 32, false);
    let hy = spec_hex_fixed(y as nat, 32, false);
    lemma_hex_fixed_len(x as nat, 32, false);
    lemma_hex_fixed_len(y as nat, 32, false);
    let tx = spec_uuid_text(x as nat);
    let ty = spec_uuid_text(y as nat);
    assert forall|i: int| 0 <= i < 32 implies hx[i] == hy[i] by {
        let pos = if i < 8 { i } else if i < 12 { i + 1 } else if i < 16 { i + 2 } else if i < 20 { i + 3 } else { i + 4 };
        assert(tx[pos] == hx[i]);
        assert(ty[pos] == hy[i]);
    }
    assert(hx =~= hy);
    assert(pow16(32) == 0x1_0000_0000_0000_0000_0000_0000_0000_0000nat) by {
        reveal_with_fuel(pow16, 33);
    }
    lemma_hex_fixed_injective(x as nat, y as nat, 32, false);
}

/// A UUID of version 4 (random), variant RFC 4122, by its 128-bit value.
pub open spec fn is_v4_uuid(x: u128) -> bool {
    &&& (x as nat / 0x1_0000_0000_0000_0000_000) % 16 == 4
    &&& (x as nat / 0x4000_0000_0000_0000) % 4 == 2
}

/// A fresh random UUID (`uuid::Uuid::new_v4`), as its 128-bit value. The
/// value is random; what holds of every outcome is its version and variant.
#[verifier::external_body]
fn random_uuid_v4() -> (r: u128)
    ensures
        is_v4_uuid(r),
{
    uuid::Uuid::new_v4().as_u128()
}

/// The hyphenated rendering of a UUID (`uuid::Uuid`'s `Display`): the
/// lower-case 8-4-4-4-12 form, which `uuid::Uuid::parse_str` reads back.
#[verifier::external_body]
fn uuid_to_text(x: u128) -> (s: String)
    ensures
        s@ == spec_uuid_text(x as nat),
        uuid_parse_result(s@) == Some(x),
{
    uuid::Uuid::from_u128(x).to_string()
}

/// `uuid::Uuid::parse_str`, by the value of the UUID it accepts.
#[verifier::external_body]
fn uuid_from_text(s: &str) -> (r: Option<u128>)
    ensures
        r == uuid_parse_result(s@),
{
    match uuid::Uuid::parse_str(s) {
        Ok(u) => Some(u.as_u128()),
        Err(_) => None,
    }
}

#[derive(Debug, Clone, Copy, PartialEq, Eq, Hash, Structural)]
pub struct UserId(pub u128);

impl UserId {
    /// A fresh random id.
    pub fn new() -> (id: Self)
        ensures
            is_v4_uuid(id.0),
    {
        UserId(random_uuid_v4())
    }

    pub fn from_u128(value: u128) -> (id: Self)
        ensures
            id.0 == value,
    {
        UserId(value)
    }

    pub fn as_u128(&self) -> (value: u128)
        ensures
            value == self.0,
    {
        self.0
    }

    /// The canonical text of the id; parsing it gives the id back.
    pub fn to_string(&self) -> (s: String)
        ensures
            s@ == spec_uuid_text(self.0 as nat),
            uuid_parse_result(s@) == Some(self.0),
    {
        uuid_to_text(self.0)
    }

    /// Reads an id from any text that `uuid::Uuid::parse_str` accepts.
    pub fn parse_str(s: &str) -> (r: Option<Self>)
        ensures
            match uuid_parse_result(s@) {
                Some(v) => r == Some(UserId(v)),
                None => r is None,
            },
    {
        match uuid_from_text(s) {
            Some(v) => Some(UserId(v)),
            None => None,
        }
    }
}

impl Default for UserId {
    fn default() -> (id: Self)
        ensures
            is_v4_uuid(id.0),
    {
        UserId::new()
    }
}

impl core::str::FromStr for UserId {
    type Err = ();

    fn from_str(s: &str) -> (r: Result<Self, ()>)
        ensures
            match uuid_parse_result(s@) {
                Some(v) => r == Ok::<UserId, ()>(UserId(v)),
                None => r == Err::<UserId, ()>(()),
            },
    {
        match UserId::parse_str(s) {
            Some(id) => Ok(id),
            None => Err(()),
        }
    }
}

#[derive(Debug, Clone, Copy, PartialEq, Eq, Hash, Structural)]
pub struct RideId(pub u128);

impl RideId {
    /// A fresh random id.
    pub fn new() -> (id: Self)
        ensures
            is_v4_uuid(id.0),
    {
        RideId(random_uuid_v4())
    }

    pub fn from_u128(value: u128) -> (id: Self)
        ensures
            id.0 == value,
    {
        RideId(value)
    }

    pub fn as_u128(&self) -> (value: u128)
        ensures
            value == self.0,
    {
        self.0
    }

    /// The canonical text of the id; parsing it gives the id back.
    pub fn to_string(&self) -> (s: String)
        ensures
            s@ == spec_uuid_text(self.0 as nat),
            uuid_parse_result(s@) == Some(self.0),
    {
        uuid_to_text(self.0)
    }

    /// Reads an id from any text that `uuid::Uuid::parse_str` accepts.
    pub fn parse_str(s: &str) -> (r: Option<Self>)
        ensures
            match uuid_parse_result(s@) {
                Some(v) => r == Some(RideId(v)),
                None => r is None,
            },
    {
        match uuid_from_text(s) {
            Some(v) => Some(RideId(v)),
            None => None,
        }
    }
}

impl Default for RideId {
    fn default() -> (id: Self)
        ensures
            is_v4_uuid(id.0),
    {
        RideId::new()
    }
}

impl core::str::FromStr for RideId {
    type Err = ();

    fn from_str(s: &str) -> (r: Result<Self, ()>)
        ensures
            match uuid_parse_result(s@) {
                Some(v) => r == Ok::<RideId, ()>(RideId(v)),
                None => r == Err::<RideId, ()>(()),
            },
    {
        match RideId::parse_str(s) {
            Some(id) => Ok(id),
            None => Err(()),
        }
    }
}

#[derive(Debug, Clone, Copy, PartialEq, Eq, Hash, Structural)]
pub struct RidePointId(pub u128);

impl RidePointId {
    /// A fresh random id.
    pub fn new() -> (id: Self)
        ensures
            is_v4_uuid(id.0),
    {
        RidePointId(random_uuid_v4())
    }

    pub fn from_u128(value: u128) -> (id: Self)
        ensures
            id.0 == value,
    {
        RidePointId(value)
    }

    pub fn as_u128(&self) -> (value: u128)
        ensures
            value == self.0,
    {
        self.0
    }

    /// The canonical text of the id; parsing it gives the id back.
    pub fn to_string(&self) -> (s: String)
        ensures
            s@ == spec_uuid_text(self.0 as nat),
            uuid_parse_result(s@) == Some(self.0),
    {
        uuid_to_text(self.0)
    }

    /// Reads an id from any text that `uuid::Uuid::parse_str` accepts.
    pub fn parse_str(s: &str) -> (r: Option<Self>)
        ensures
            match uuid_parse_result(s@) {
                Some(v) => r == Some(RidePointId(v)),
                None => r is None,
            },
    {
        match uuid_from_text(s) {
            Some(v) => Some(RidePointId(v)),
            None => None,
        }
    }
}

impl Default for RidePointId {
    fn default() -> (id: Self)
        ensures
            is_v4_uuid(id.0),
    {
        RidePointId::new()
    }
}

impl core::str::FromStr for RidePointId {
    type Err = ();

    fn from_str(s: &str) -> (r: Result<Self, ()>)
        ensures
            match uuid_parse_result(s@) {
                Some(v) => r == Ok::<RidePointId, ()>(RidePointId(v)),
                None => r == Err::<RidePointId, ()>(()),
            },
    {
        match RidePointId::parse_str(s) {
            Some(id) => Ok(id),
            None => Err(()),
        }
    }
}

#[derive(Debug, Clone, Copy, PartialEq, Eq, Hash, Structural)]
pub struct GroupId(pub u128);

impl GroupId {
    /// A fresh random id.
    pub fn new() -> (id: Self)
        ensures
            is_v4_uuid(id.0),
    {
        GroupId(random_uuid_v4())
    }

    pub fn from_u128(value: u128) -> (id: Self)
        ensures
            id.0 == value,
    {
        GroupId(value)
    }

    pub fn as_u128(&self) -> (value: u128)
        ensures
            value == self.0,
    {
        self.0
    }

    /// The canonical text of the id; parsing it gives the id back.
    pub fn to_string(&self) -> (s: String)
        ensures
            s@ == spec_uuid_text(self.0 as nat),
            uuid_parse_result(s@) == Some(self.0),
    {
        uuid_to_text(self.0)
    }

    /// Reads an id from any text that `uuid::Uuid::parse_str` accepts.
    pub fn parse_str(s: &str) -> (r: Option<Self>)
        ensures
            match uuid_parse_result(s@) {
                Some(v) => r == Some(GroupId(v)),
                None => r is None,
            },
    {
        match uuid_from_text(s) {
            Some(v) => Some(GroupId(v)),
            None => None,
        }
    }
}

impl Default for GroupId {
    fn default() -> (id: Self)
        ensures
            is_v4_uuid(id.0),
    {
        GroupId::new()
    }
}

impl core::str::FromStr for GroupId {
    type Err = ();

    fn from_str(s: &str) -> (r: Result<Self, ()>)
        ensures
            match uuid_parse_result(s@) {
                Some(v) => r == Ok::<GroupId, ()>(GroupId(v)),
                None => r == Err::<GroupId, ()>(()),
            },
    {
        match GroupId::parse_str(s) {
            Some(id) => Ok(id),
            None => Err(()),
        }
    }
}

#[derive(Debug, Clone, Copy, PartialEq, Eq, Hash, Structural)]
pub struct MotorcycleId(pub u128);

impl MotorcycleId {
    /// A fresh random id.
    pub fn new() -> (id: Self)
        ensures
            is_v4_uuid(id.0),
    {
        MotorcycleId(random_uuid_v4())
    }

    pub fn from_u128(value: u128) -> (id: Self)
        ensures
            id.0 == value,
    {
        MotorcycleId(value)
    }

    pub fn as_u128(&self) -> (value: u128)
        ensures
            value == self.0,
    {
        self.0
    }

    /// The canonical text of the id; parsing it gives the id back.
    pub fn to_string(&self) -> (s: String)
        ensures
            s@ == spec_uuid_text(self.0 as nat),
            uuid_parse_result(s@) == Some(self.0),
    {
        uuid_to_text(self.0)
    }

    /// Reads an id from any text that `uuid::Uuid::parse_str` accepts.
    pub fn parse_str(s: &str) -> (r: Option<Self>)
        ensures
            match uuid_parse_result(s@) {
                Some(v) => r == Some(MotorcycleId(v)),
                None => r is None,
            },
    {
        match uuid_from_text(s) {
            Some(v) => Some(MotorcycleId(v)),
            None => None,
        }
    }
}

impl Default for MotorcycleId {
    fn default() -> (id: Self)
        ensures
            is_v4_uuid(id.0),
    {
        MotorcycleId::new()
    }
}

impl core::str::FromStr for MotorcycleId {
    type Err = ();

    fn from_str(s: &str) -> (r: Result<Self, ()>)
        ensures
            match uuid_parse_result(s@) {
                Some(v) => r == Ok::<MotorcycleId, ()>(MotorcycleId(v)),
                None => r == Err::<MotorcycleId, ()>(()),
            },
    {
        match MotorcycleId::parse_str(s) {
            Some(id) => Ok(id),
            None => Err(()),
        }
    }
}

#[derive(Debug, Clone, Copy, PartialEq, Eq, Hash, Structural)]
pub struct SosEventId(pub u128);

impl SosEventId {
    /// A fresh random id.
    pub fn new() -> (id: Self)
        ensures
            is_v4_uuid(id.0),
    {
        SosEventId(random_uuid_v4())
    }

    pub fn from_u128(value: u128) -> (id: Self)
        ensures
            id.0 == value,
    {
        SosEventId(value)
    }

    pub fn as_u128(&self) -> (value: u128)
        ensures
            value == self.0,
    {
        self.0
    }

    /// The canonical text of the id; parsing it gives the id back.
    pub fn to_string(&self) -> (s: String)
        ensures
            s@ == spec_uuid_text(self.0 as nat),
            uuid_parse_result(s@) == Some(self.0),
    {
        uuid_to_text(self.0)
    }

    /// Reads an id from any text that `uuid::Uuid::parse_str` accepts.
    pub fn parse_str(s: &str) -> (r: Option<Self>)
        ensures
            match uuid_parse_result(s@) {
                Some(v) => r == Some(SosEventId(v)),
                None => r is None,
            },
    {
        match uuid_from_text(s) {
            Some(v) => Some(SosEventId(v)),
            None => None,
        }
    }
}

impl Default for SosEventId {
    fn default() -> (id: Self)
        ensures
            is_v4_uuid(id.0),
    {
        SosEventId::new()
    }
}

impl core::str::FromStr for SosEventId {
    type Err = ();

    fn from_str(s: &str) -> (r: Result<Self, ()>)
        ensures
            match uuid_parse_result(s@) {
                Some(v) => r == Ok::<SosEventId, ()>(SosEventId(v)),
                None => r == Err::<SosEventId, ()>(()),
            },
    {
        match SosEventId::parse_str(s) {
            Some(id) => Ok(id),
            None => Err(()),
        }
    }
}

#[derive(Debug, Clone, Copy, PartialEq, Eq, Hash, Structural)]
pub struct EmergencyContactId(pub u128);

impl EmergencyContactId {
    /// A fresh random id.
    pub fn new() -> (id: Self)
        ensures
            is_v4_uuid(id.0),
    {
        EmergencyContactId(random_uuid_v4())
    }

    pub fn from_u128(value: u128) -> (id: Self)
        ensures
            id.0 == value,
    {
        EmergencyContactId(value)
    }

    pub fn as_u128(&self) -> (value: u128)
        ensures
            value == self.0,
    {
        self.0
    }

    /// The canonical text of the id; parsing it gives the id back.
    pub fn to_string(&self) -> (s: String)
        ensures
            s@ == spec_uuid_text(self.0 as nat),
            uuid_parse_result(s@) == Some(self.0),
    {
        uuid_to_text(self.0)
    }

    /// Reads an id from any text that `uuid::Uuid::parse_str` accepts.
    pub fn parse_str(s: &str) -> (r: Option<Self>)
        ensures
            match uuid_parse_result(s@) {
                Some(v) => r == Some(EmergencyContactId(v)),
                None => r is None,
            },
    {
        match uuid_from_text(s) {
            Some(v) => Some(EmergencyContactId(v)),
            None => None,
        }
    }
}

impl Default for EmergencyContactId {
    fn default() -> (id: Self)
        ensures
            is_v4_uuid(id.0),
    {
        EmergencyContactId::new()
    }
}

impl core::str::FromStr for EmergencyContactId {
    type Err = ();

    fn from_str(s: &str) -> (r: Result<Self, ()>)
        ensures
            match uuid_parse_result(s@) {
                Some(v) => r == Ok::<EmergencyContactId, ()>(EmergencyContactId(v)),
                None => r == Err::<EmergencyContactId, ()>(()),
            },
    {
        match EmergencyContactId::parse_str(s) {
            Some(id) => Ok(id),
            None => Err(()),
        }
    }
}

#[derive(Debug, Clone, Copy, PartialEq, Eq, Hash, Structural)]
pub struct NotificationId(pub u128);

impl NotificationId {
    /// A fresh random id.
    pub fn new() -> (id: Self)
        ensures
            is_v4_uuid(id.0),
    {
        NotificationId(random_uuid_v4())
    }

    pub fn from_u128(value: u128) -> (id: Self)
        ensures
            id.0 == value,
    {
        NotificationId(value)
    }

    pub fn as_u128(&self) -> (value: u128)
        ensures
            value == self.0,
    {
        self.0
    }

    /// The canonical text of the id; parsing it gives the id back.
    pub fn to_string(&self) -> (s: String)
        ensures
            s@ == spec_uuid_text(self.0 as nat),
            uuid_parse_result(s@) == Some(self.0),
    {
        uuid_to_text(self.0)
    }

    /// Reads an id from any text that `uuid::Uuid::parse_str` accepts.
    pub fn parse_str(s: &str) -> (r: Option<Self>)
        ensures
            match uuid_parse_result(s@) {
                Some(v) => r == Some(NotificationId(v)),
                None => r is None,
            },
    {
        match uuid_from_text(s) {
            Some(v) => Some(NotificationId(v)),
            None => None,
        }
    }
}

impl Default for NotificationId {
    fn default() -> (id: Self)
        ensures
            is_v4_uuid(id.0),
    {
        NotificationId::new()
    }
}

impl core::str::FromStr for NotificationId {
    type Err = ();

    fn from_str(s: &str) -> (r: Result<Self, ()>)
        ensures
            match uuid_parse_result(s@) {
                Some(v) => r == Ok::<NotificationId, ()>(NotificationId(v)),
                None => r == Err::<NotificationId, ()>(()),
            },
    {
        match NotificationId::parse_str(s) {
            Some(id) => Ok(id),
            None => Err(()),
        }
    }
}

#[derive(Debug, Clone, Copy, PartialEq, Eq, Hash, Structural)]
pub struct SessionId(pub u128);

impl SessionId {
    /// A fresh random id.
    pub fn new() -> (id: Self)
        ensures
            is_v4_uuid(id.0),
    {
        SessionId(random_uuid_v4())
    }

    pub fn from_u128(value: u128) -> (id: Self)
        ensures
            id.0 == value,
    {
        SessionId(value)
    }

    pub fn as_u128(&self) -> (value: u128)
        ensures
            value == self.0,
    {
        self.0
    }

    /// The canonical text of the id; parsing it gives the id back.
    pub fn to_string(&self) -> (s: String)
        ensures
            s@ == spec_uuid_text(self.0 as nat),
            uuid_parse_result(s@) == Some(self.0),
    {
        uuid_to_text(self.0)
    }

    /// Reads an id from any text that `uuid::Uuid::parse_str` accepts.
    pub fn parse_str(s: &str) -> (r: Option<Self>)
        ensures
            match uuid_parse_result(s@) {
                Some(v) => r == Some(SessionId(v)),
                None => r is None,
            },
    {
        match uuid_from_text(s) {
            Some(v) => Some(SessionId(v)),
            None => None,
        }
    }
}

impl Default for SessionId {
    fn default() -> (id: Self)
        ensures
            is_v4_uuid(id.0),
    {
        SessionId::new()
    }
}

impl core::str::FromStr for SessionId {
    type Err = ();

    fn from_str(s: &str) -> (r: Result<Self, ()>)
        ensures
            match uuid_parse_result(s@) {
                Some(v) => r == Ok::<SessionId, ()>(SessionId(v)),
                None => r == Err::<SessionId, ()>(()),
            },
    {
        match SessionId::parse_str(s) {
            Some(id) => Ok(id),
            None => Err(()),
        }
    }
}

} // verus!
