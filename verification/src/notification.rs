use vstd::prelude::*;

verus! {

/// How a notification is coloured.
#[derive(Debug, Clone, Copy, PartialEq, Eq, Structural)]
pub enum NotificationKind {
    Error,
    Info,
}

/// Seconds after which a notification is cleared again.
pub const NOTIFICATION_TIMEOUT: u64 = 5;

/// A transient banner: its text, its severity and how long it stays.
#[derive(Debug)]
pub struct Notification {
    pub msg: String,
    pub kind: NotificationKind,
    pub timeout: u64,
}

/// What the root is told about the banner.
#[derive(Debug)]
pub enum NotificationMsg {
    Show(Notification),
    Clear,
}

impl Clone for Notification {
    fn clone(&self) -> (out: Self)
        ensures
            out == *self,
    {
        Notification { msg: self.msg.clone(), kind: self.kind, timeout: self.timeout }
    }
}

impl Notification {
    /// An error banner with the standard timeout.
    pub fn error(msg: String) -> (out: Notification)
        ensures
            out == (Notification { msg, kind: NotificationKind::Error, timeout: NOTIFICATION_TIMEOUT }),
    {
        Notification { msg, kind: NotificationKind::Error, timeout: NOTIFICATION_TIMEOUT }
    }

    /// An informational banner with the standard timeout.
    pub fn info(msg: String) -> (out: Notification)
        ensures
            out == (Notification { msg, kind: NotificationKind::Info, timeout: NOTIFICATION_TIMEOUT }),
    {
        Notification { msg, kind: NotificationKind::Info, timeout: NOTIFICATION_TIMEOUT }
    }

    pub fn msg(&self) -> (out: &str)
        ensures
            out@ == self.msg@,
    {
        self.msg.as_str()
    }

    pub fn kind(&self) -> (out: &NotificationKind)
        ensures
            *out == self.kind,
    {
        &self.kind
    }

    pub fn timeout(&self) -> (out: u64)
        ensures
            out == self.timeout,
    {
        self.timeout
    }
}

} // verus!
