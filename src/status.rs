//! Classification of the engine's integer status codes.
use vstd::prelude::*;

verus! {

/// The request succeeded.
pub const MXCHIP_SUCCESS: i32 = 0;
/// The request failed.
pub const MXCHIP_FAILED: i32 = -1;
/// The radio chip could not be brought up.
pub const MXCHIP_8782_INIT_FAILED: i32 = -2;
/// A system call was made in a state that does not allow it.
pub const MXCHIP_SYS_ILLEGAL: i32 = -3;
/// Joining the wireless network failed.
pub const MXCHIP_WIFI_JOIN_FAILED: i32 = -4;
/// The station interface came up.
pub const MXCHIP_WIFI_UP: i32 = 1;
/// The station interface went down.
pub const MXCHIP_WIFI_DOWN: i32 = 2;
/// The access point interface came up.
pub const MXCHIP_UAP_UP: i32 = 3;
/// The access point interface went down.
pub const MXCHIP_UAP_DOWN: i32 = 4;

/// Generic status error. Some status codes are reports rather than failures.
#[derive(Debug, Clone, Copy, PartialEq, Eq, Structural)]
pub enum StatusError {
    /// Request failed
    Failed,
    /// Uap is up
    UapUp,
    /// Wifi is up
    WifiUp,
    /// Uap is down
    UapDown,
    /// Wifi is down
    WifiDown,
    /// Illegal system call
    SysIllegal,
    /// 8782 init failed
    InitFailed8782,
    /// Could not join to the wifi network
    WifiJoinFailed,
    /// A code without a name; it is carried unchanged.
    Unknown(i32),
}

/// Whether `code` is one of the codes that have a name.
pub open spec fn is_named_code(code: i32) -> bool {
    code == MXCHIP_SUCCESS || code == MXCHIP_FAILED || code == MXCHIP_UAP_UP
        || code == MXCHIP_WIFI_UP || code == MXCHIP_UAP_DOWN || code == MXCHIP_WIFI_DOWN
        || code == MXCHIP_SYS_ILLEGAL || code == MXCHIP_8782_INIT_FAILED
        || code == MXCHIP_WIFI_JOIN_FAILED
}

/// The outcome that a status code stands for.
pub open spec fn classify(code: i32) -> Result<(), StatusError> {
    if code == MXCHIP_SUCCESS {
        Ok(())
    } else if code == MXCHIP_FAILED {
        Err(StatusError::Failed)
    } else if code == MXCHIP_UAP_UP {
        Err(StatusError::UapUp)
    } else if code == MXCHIP_WIFI_UP {
        Err(StatusError::WifiUp)
    } else if code == MXCHIP_UAP_DOWN {
        Err(StatusError::UapDown)
    } else if code == MXCHIP_WIFI_DOWN {
        Err(StatusError::WifiDown)
    } else if code == MXCHIP_SYS_ILLEGAL {
        Err(StatusError::SysIllegal)
    } else if code == MXCHIP_8782_INIT_FAILED {
        Err(StatusError::InitFailed8782)
    } else if code == MXCHIP_WIFI_JOIN_FAILED {
        Err(StatusError::WifiJoinFailed)
    } else {
        Err(StatusError::Unknown(code))
    }
}

impl StatusError {
    /// Classifies a status code reported by the engine.
    pub fn check_error(code: i32) -> (r: Result<(), StatusError>)
        ensures
            r == classify(code),
    {
        match code {
            MXCHIP_SUCCESS => Ok(()),
            MXCHIP_FAILED => Err(StatusError::Failed),
            MXCHIP_UAP_UP => Err(StatusError::UapUp),
            MXCHIP_WIFI_UP => Err(StatusError::WifiUp),
            MXCHIP_UAP_DOWN => Err(StatusError::UapDown),
            MXCHIP_WIFI_DOWN => Err(StatusError::WifiDown),
            MXCHIP_SYS_ILLEGAL => Err(StatusError::SysIllegal),
            MXCHIP_8782_INIT_FAILED => Err(StatusError::InitFailed8782),
            MXCHIP_WIFI_JOIN_FAILED => Err(StatusError::WifiJoinFailed),
            _ => Err(StatusError::Unknown(code)),
        }
    }
}

/// Every code is classified: the success code as success, every other code as a
/// failure, and a code without a name as `Unknown` carrying that very code.
pub proof fn lemma_classify_total(code: i32)
    ensures
        classify(MXCHIP_SUCCESS) == Ok::<(), StatusError>(()),
        code != MXCHIP_SUCCESS ==> classify(code) is Err,
        !is_named_code(code) ==> classify(code) == Err::<(), StatusError>(StatusError::Unknown(code)),
        is_named_code(code) ==> !(classify(code) matches Err(StatusError::Unknown(_))),
{
}

} // verus!
