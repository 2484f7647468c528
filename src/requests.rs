//! Request bodies and small values of the HTTP boundary, with the pure rules
//! that the boundary applies to them.
use vstd::prelude::*;
use vstd::string::StrSliceExecFns;

verus! {

/// A lock or unlock command for a device.
pub struct ControlRequest {
    pub command: String,
    pub user_id: String,
}

/// A batch of configuration changes for one device.
pub struct UpdateConfigRequest {
    pub configs: Vec<ConfigItem>,
}

/// One configuration change.
pub struct ConfigItem {
    pub key: String,
    pub value: String,
}

/// Pairing of a device with its owner.
pub struct RegisterDeviceRequest {
    pub device_id: String,
    pub user_key: String,
    pub user_id: String,
}

/// An invitation to share a device.
pub struct CreateInviteRequest {
    pub receiver_email: String,
    pub device_id: String,
    /// One of `2_dias`, `1_semana`, `2_semanas`, `1_mes`, `permanente`.
    pub expiry_duration: String,
}

/// A new duration for an existing invitation.
pub struct UpdateInviteRequest {
    pub expiry_duration: String,
}

pub struct RegisterRequest {
    pub firebase_uid: String,
    pub password: String,
    pub email: String,
    pub phone_number: String,
    pub name: String,
}

pub struct LoginRequest {
    pub firebase_uid: String,
    pub password: String,
}

pub struct UpdatePhoneRequest {
    pub phone_number: String,
}

pub struct UpdatePasswordRequest {
    pub password: String,
}

pub struct VerifyPasswordRequest {
    pub password: String,
}

/// Base URL of the voice-similarity service.
pub struct SpeechbrainUrl(pub String);

/// URL that browser redirects lead to.
pub struct HomepageUrl(pub String);

/// A bearer token taken from a request's `Authorization` header.
pub struct Token(pub String);

/// What follows `Bearer ` in an `Authorization` header, if it starts so.
pub open spec fn bearer_spec(header: Seq<char>) -> Option<Seq<char>> {
    if header.len() >= 7 && header.subrange(0, 7) == "Bearer "@ {
        Some(header.subrange(7, header.len() as int))
    } else {
        None
    }
}

impl Token {
    /// Reads the token of an `Authorization: Bearer <token>` header; any
    /// other header, or none, gives `None`.
    pub fn from_authorization(header: Option<&str>) -> (r: Option<Token>)
        ensures
            match header {
                None => r is None,
                Some(h) => match bearer_spec(h@) {
                    Some(t) => r is Some && r.unwrap().0@ == t,
                    None => r is None,
                },
            },
    {
        match header {
            None => None,
            Some(h) => {
                let n = h.unicode_len();
                if n < 7 {
                    return None;
                }
                let head = h.substring_char(0, 7).to_owned();
                if head == "Bearer ".to_owned() {
                    Some(Token(h.substring_char(7, n).to_owned()))
                } else {
                    None
                }
            },
        }
    }
}

pub const MS_PER_DAY: i64 = 86_400_000;

/// How many days an invitation lasts for a duration label; an unknown label
/// lasts a week.
pub open spec fn invite_days(label: Seq<char>) -> i64 {
    if label == "2_dias"@ {
        2
    } else if label == "1_semana"@ {
        7
    } else if label == "2_semanas"@ {
        14
    } else if label == "1_mes"@ {
        30
    } else if label == "permanente"@ {
        36500
    } else {
        7
    }
}

pub fn invite_duration_days(label: &str) -> (r: i64)
    ensures
        r == invite_days(label@),
{
    let l = label.to_owned();
    if l == "2_dias".to_owned() {
        2
    } else if l == "1_semana".to_owned() {
        7
    } else if l == "2_semanas".to_owned() {
        14
    } else if l == "1_mes".to_owned() {
        30
    } else if l == "permanente".to_owned() {
        36500
    } else {
        7
    }
}

/// When an invitation created at `base_ms` (Unix milliseconds) with duration
/// label `label` expires.
pub fn calculate_expiry_timestamp(base_ms: i64, label: &str) -> (r: i64)
    requires
        base_ms as int + 36500 * MS_PER_DAY <= i64::MAX,
    ensures
        r == base_ms as int + invite_days(label@) * MS_PER_DAY,
{
    let days = invite_duration_days(label);
    base_ms + days * MS_PER_DAY
}

} // verus!
