//! The status codes that a notification request can end with.

use vstd::prelude::*;

verus! {

/// The notification was shown and nothing failed on the way.
pub const STATUS_OK: i32 = 0;

/// A required text argument was null, or a text argument could not be decoded.
pub const STATUS_INVALID_TEXT: i32 = -1;

/// The notification subsystem failed to show the notification.
pub const STATUS_SHOW_FAILED: i32 = -2;

/// The notification subsystem failed to initialize, and showing the
/// notification did not fail after that.
pub const STATUS_INIT_FAILED: i32 = -3;

} // verus!
