//! A bridge between a Java application and the desktop notification service.
//!
//! The Java side hands over four text arguments; the bridge decides, step by
//! step, which text to decode, when to initialize the notification subsystem,
//! what to show, when to release the subsystem again, and which status code
//! to hand back. The decisions live in [`dispatch`] and are verified; [`run`]
//! states what they add up to over a whole request. [`jvm`] reads the text
//! arguments from the Java runtime. The calls into the notification subsystem
//! are made by the code that embeds this library.

pub mod status;
pub mod version;
pub mod dispatch;
pub mod jvm;
pub mod run;
