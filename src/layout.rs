//! Version-dependent fixed offsets of the topic name in a request and of the
//! error code in a response, for the two operations that are decoded.
use vstd::prelude::*;

verus! {

/// Operation kind of a produce request.
pub const KAFKA_PRODUCE: u16 = 0;

/// Operation kind of a fetch request.
pub const KAFKA_FETCH: u16 = 1;

/// Offset of the topic name, counted from the first byte after the client
/// identifier, or `None` where the layout is not supported.
pub open spec fn topic_offset(api_key: u16, api_version: u16) -> Option<int> {
    if api_key == KAFKA_PRODUCE {
        if api_version <= 2 {
            Some(10)
        } else if api_version <= 9 {
            Some(12)
        } else {
            None
        }
    } else if api_key == KAFKA_FETCH {
        if api_version <= 2 {
            Some(16)
        } else if api_version == 3 {
            Some(20)
        } else if api_version <= 6 {
            Some(21)
        } else if api_version <= 12 {
            Some(29)
        } else {
            None
        }
    } else {
        None
    }
}

/// Offset of the error code, counted from the first byte after the response
/// envelope, or `None` where the layout is not supported.
pub open spec fn errcode_offset(api_key: u16, api_version: u16) -> Option<int> {
    if api_key == KAFKA_PRODUCE {
        if api_version <= 8 {
            Some(14)
        } else {
            None
        }
    } else if api_key == KAFKA_FETCH {
        if api_version == 0 {
            Some(14)
        } else if api_version <= 6 {
            Some(18)
        } else if api_version <= 15 {
            Some(4)
        } else {
            None
        }
    } else {
        None
    }
}

pub fn topic_fixed_offset(api_key: u16, api_version: u16) -> (r: Option<usize>)
    ensures
        match r {
            Some(o) => topic_offset(api_key, api_version) == Some(o as int),
            None => topic_offset(api_key, api_version) is None,
        },
{
    if api_key == KAFKA_PRODUCE {
        if api_version <= 2 {
            Some(10)
        } else if api_version <= 9 {
            Some(12)
        } else {
            None
        }
    } else if api_key == KAFKA_FETCH {
        if api_version <= 2 {
            Some(16)
        } else if api_version == 3 {
            Some(20)
        } else if api_version <= 6 {
            Some(21)
        } else if api_version <= 12 {
            Some(29)
        } else {
            None
        }
    } else {
        None
    }
}

pub fn errcode_fixed_offset(api_key: u16, api_version: u16) -> (r: Option<usize>)
    ensures
        match r {
            Some(o) => errcode_offset(api_key, api_version) == Some(o as int),
            None => errcode_offset(api_key, api_version) is None,
        },
{
    if api_key == KAFKA_PRODUCE {
        if api_version <= 8 {
            Some(14)
        } else {
            None
        }
    } else if api_key == KAFKA_FETCH {
        if api_version == 0 {
            Some(14)
        } else if api_version <= 6 {
            Some(18)
        } else if api_version <= 15 {
            Some(4)
        } else {
            None
        }
    } else {
        None
    }
}

/// The topic-name offsets: produce is 10 up to version 2 and 12 for versions
/// 3 to 9; fetch is 16 up to version 2, 20 at version 3, 21 for versions 4 to
/// 6 and 29 for versions 7 to 12; every other pair is unsupported.
pub proof fn lemma_topic_offset_table(api_key: u16, api_version: u16)
    ensures
        api_key == KAFKA_PRODUCE && api_version <= 2 ==> topic_offset(api_key, api_version)
            == Some(10int),
        api_key == KAFKA_PRODUCE && 3 <= api_version <= 9 ==> topic_offset(api_key, api_version)
            == Some(12int),
        api_key == KAFKA_FETCH && api_version <= 2 ==> topic_offset(api_key, api_version) == Some(
            16int,
        ),
        api_key == KAFKA_FETCH && api_version == 3 ==> topic_offset(api_key, api_version) == Some(
            20int,
        ),
        api_key == KAFKA_FETCH && 4 <= api_version <= 6 ==> topic_offset(api_key, api_version)
            == Some(21int),
        api_key == KAFKA_FETCH && 7 <= api_version <= 12 ==> topic_offset(api_key, api_version)
            == Some(29int),
        !((api_key == KAFKA_PRODUCE && api_version <= 9) || (api_key == KAFKA_FETCH
            && api_version <= 12)) ==> topic_offset(api_key, api_version) is None,
{
}

/// The error-code offsets: produce is 14 up to version 8, and version 9 is
/// unsupported; fetch is 14 at version 0, 18 for versions 1 to 6 and 4 for
/// versions 7 to 15; every other pair is unsupported.
pub proof fn lemma_errcode_offset_table(api_key: u16, api_version: u16)
    ensures
        api_key == KAFKA_PRODUCE && api_version <= 8 ==> errcode_offset(api_key, api_version)
            == Some(14int),
        api_key == KAFKA_FETCH && api_version == 0 ==> errcode_offset(api_key, api_version) == Some(
            14int,
        ),
        api_key == KAFKA_FETCH && 1 <= api_version <= 6 ==> errcode_offset(api_key, api_version)
            == Some(18int),
        api_key == KAFKA_FETCH && 7 <= api_version <= 15 ==> errcode_offset(api_key, api_version)
            == Some(4int),
        !((api_key == KAFKA_PRODUCE && api_version <= 8) || (api_key == KAFKA_FETCH
            && api_version <= 15)) ==> errcode_offset(api_key, api_version) is None,
{
}

} // verus!
