//! The keys of what the engine can be asked after a transfer. A key is the
//! sum of the tag of its value's type and its number.

use vstd::prelude::*;

verus! {

pub const CURLINFO_STRING: i32 = 0x100000;

pub const CURLINFO_LONG: i32 = 0x200000;

pub const CURLINFO_DOUBLE: i32 = 0x300000;

pub const CURLINFO_SLIST: i32 = 0x400000;

/// The bits of a key that hold its number.
pub const CURLINFO_MASK: i32 = 0x0fffff;

/// The bits of a key that hold the tag of its value's type.
pub const CURLINFO_TYPEMASK: i32 = 0xf00000;

pub const EFFECTIVE_URL: i32 = CURLINFO_STRING + 1;

pub const RESPONSE_CODE: i32 = CURLINFO_LONG + 2;

pub const TOTAL_TIME: i32 = CURLINFO_DOUBLE + 3;

pub const NAMELOOKUP_TIME: i32 = CURLINFO_DOUBLE + 4;

pub const CONNECT_TIME: i32 = CURLINFO_DOUBLE + 5;

pub const PRETRANSFER_TIME: i32 = CURLINFO_DOUBLE + 6;

pub const SIZE_UPLOAD: i32 = CURLINFO_DOUBLE + 7;

pub const SIZE_DOWNLOAD: i32 = CURLINFO_DOUBLE + 8;

pub const SPEED_DOWNLOAD: i32 = CURLINFO_DOUBLE + 9;

pub const SPEED_UPLOAD: i32 = CURLINFO_DOUBLE + 10;

pub const HEADER_SIZE: i32 = CURLINFO_LONG + 11;

pub const REQUEST_SIZE: i32 = CURLINFO_LONG + 12;

pub const SSL_VERIFYRESULT: i32 = CURLINFO_LONG + 13;

pub const FILETIME: i32 = CURLINFO_LONG + 14;

pub const CONTENT_LENGTH_DOWNLOAD: i32 = CURLINFO_DOUBLE + 15;

pub const CONTENT_LENGTH_UPLOAD: i32 = CURLINFO_DOUBLE + 16;

pub const STARTTRANSFER_TIME: i32 = CURLINFO_DOUBLE + 17;

pub const CONTENT_TYPE: i32 = CURLINFO_STRING + 18;

pub const REDIRECT_TIME: i32 = CURLINFO_DOUBLE + 19;

pub const REDIRECT_COUNT: i32 = CURLINFO_LONG + 20;

pub const PRIVATE: i32 = CURLINFO_STRING + 21;

pub const HTTP_CONNECTCODE: i32 = CURLINFO_LONG + 22;

pub const HTTPAUTH_AVAIL: i32 = CURLINFO_LONG + 23;

pub const PROXYAUTH_AVAIL: i32 = CURLINFO_LONG + 24;

pub const OS_ERRNO: i32 = CURLINFO_LONG + 25;

pub const NUM_CONNECTS: i32 = CURLINFO_LONG + 26;

pub const SSL_ENGINES: i32 = CURLINFO_SLIST + 27;

pub const COOKIELIST: i32 = CURLINFO_SLIST + 28;

pub const LASTSOCKET: i32 = CURLINFO_LONG + 29;

pub const FTP_ENTRY_PATH: i32 = CURLINFO_STRING + 30;

pub const REDIRECT_URL: i32 = CURLINFO_STRING + 31;

pub const PRIMARY_IP: i32 = CURLINFO_STRING + 32;

pub const APPCONNECT_TIME: i32 = CURLINFO_DOUBLE + 33;

pub const CERTINFO: i32 = CURLINFO_SLIST + 34;

pub const CONDITION_UNMET: i32 = CURLINFO_LONG + 35;

pub const RTSP_SESSION_ID: i32 = CURLINFO_STRING + 36;

pub const RTSP_CLIENT_CSEQ: i32 = CURLINFO_LONG + 37;

pub const RTSP_SERVER_CSEQ: i32 = CURLINFO_LONG + 38;

pub const RTSP_CSEQ_RECV: i32 = CURLINFO_LONG + 39;

pub const PRIMARY_PORT: i32 = CURLINFO_LONG + 40;

pub const LOCAL_IP: i32 = CURLINFO_STRING + 41;

pub const LOCAL_PORT: i32 = CURLINFO_LONG + 42;

/// The earlier name of [`RESPONSE_CODE`].
pub const HTTP_CODE: i32 = RESPONSE_CODE;

/// The type of the value that the engine stores for a key.
#[derive(Clone, Copy, Debug, PartialEq, Eq, Structural)]
pub enum InfoKind {
    Text,
    Long,
    Double,
    List,
}

/// The type that the tag of `key` names, if it names one.
pub open spec fn kind_of(key: i32) -> Option<InfoKind> {
    let tag = key & CURLINFO_TYPEMASK;
    if tag == CURLINFO_STRING {
        Some(InfoKind::Text)
    } else if tag == CURLINFO_LONG {
        Some(InfoKind::Long)
    } else if tag == CURLINFO_DOUBLE {
        Some(InfoKind::Double)
    } else if tag == CURLINFO_SLIST {
        Some(InfoKind::List)
    } else {
        None
    }
}

/// Executable form of [`kind_of`].
pub fn info_kind(key: i32) -> (r: Option<InfoKind>)
    ensures
        r == kind_of(key),
{
    let tag = key & CURLINFO_TYPEMASK;
    if tag == CURLINFO_STRING {
        Some(InfoKind::Text)
    } else if tag == CURLINFO_LONG {
        Some(InfoKind::Long)
    } else if tag == CURLINFO_DOUBLE {
        Some(InfoKind::Double)
    } else if tag == CURLINFO_SLIST {
        Some(InfoKind::List)
    } else {
        None
    }
}

/// A key that is the sum of a tag and a number below the next tag has the
/// type that the tag names.
pub proof fn law_tag_decides_kind(key: i32)
    ensures
        CURLINFO_STRING <= key < CURLINFO_LONG ==> kind_of(key) == Some(InfoKind::Text),
        CURLINFO_LONG <= key < CURLINFO_DOUBLE ==> kind_of(key) == Some(InfoKind::Long),
        CURLINFO_DOUBLE <= key < CURLINFO_SLIST ==> kind_of(key) == Some(InfoKind::Double),
        CURLINFO_SLIST <= key < CURLINFO_SLIST + CURLINFO_STRING ==> kind_of(key) == Some(
            InfoKind::List,
        ),
{
    assert(0x100000i32 <= key < 0x200000i32 ==> key & 0xf00000i32 == 0x100000i32) by (bit_vector);
    assert(0x200000i32 <= key < 0x300000i32 ==> key & 0xf00000i32 == 0x200000i32) by (bit_vector);
    assert(0x300000i32 <= key < 0x400000i32 ==> key & 0xf00000i32 == 0x300000i32) by (bit_vector);
    assert(0x400000i32 <= key < 0x500000i32 ==> key & 0xf00000i32 == 0x400000i32) by (bit_vector);
}

} // verus!
