//! The kind of an incoming property request.
use vstd::prelude::*;

verus! {

/// Service code of a write request.
pub const ESV_WRITE_REQUEST: u8 = 0x60;

/// Service code of a read request.
pub const ESV_READ_REQUEST: u8 = 0x62;

/// Service code of a notification request.
pub const ESV_NOTIFICATION_REQUEST: u8 = 0x63;

/// Service code of a write-then-read request.
pub const ESV_WRITE_READ_REQUEST: u8 = 0x6E;

/// What a request asks of a device object.
#[derive(Clone, Copy, Debug, PartialEq, Eq, Structural)]
pub enum RequestKind {
    Read,
    Notification,
    Write,
    WriteRead,
    Other,
}

/// The request kind that a service code stands for.
pub open spec fn spec_kind_of(esv: u8) -> RequestKind {
    if esv == ESV_READ_REQUEST {
        RequestKind::Read
    } else if esv == ESV_NOTIFICATION_REQUEST {
        RequestKind::Notification
    } else if esv == ESV_WRITE_REQUEST {
        RequestKind::Write
    } else if esv == ESV_WRITE_READ_REQUEST {
        RequestKind::WriteRead
    } else {
        RequestKind::Other
    }
}

impl RequestKind {
    /// Classifies a service code; every code that is not a read,
    /// notification, write or write-then-read request is `Other`.
    pub fn from_esv(esv: u8) -> (r: RequestKind)
        ensures
            r == spec_kind_of(esv),
    {
        if esv == ESV_READ_REQUEST {
            RequestKind::Read
        } else if esv == ESV_NOTIFICATION_REQUEST {
            RequestKind::Notification
        } else if esv == ESV_WRITE_REQUEST {
            RequestKind::Write
        } else if esv == ESV_WRITE_READ_REQUEST {
            RequestKind::WriteRead
        } else {
            RequestKind::Other
        }
    }

    /// Whether the request reads or asks for a notification.
    pub open spec fn spec_is_read(self) -> bool {
        self == RequestKind::Read || self == RequestKind::Notification
    }

    /// Whether the request writes.
    pub open spec fn spec_is_write(self) -> bool {
        self == RequestKind::Write || self == RequestKind::WriteRead
    }
}

} // verus!
