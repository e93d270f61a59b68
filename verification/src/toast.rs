use vstd::prelude::*;

verus! {

/// Severity of a notification, an informational styling hint.
#[derive(Clone, Copy, Debug, PartialEq, Eq, Structural)]
pub enum Level {
    Info,
    Success,
    Warning,
    Error,
}

impl Level {
    /// The human-readable name of the level.
    pub fn label(&self) -> (s: &'static str)
        ensures
            match self {
                Level::Info => s@ == "Info"@,
                Level::Success => s@ == "Success"@,
                Level::Warning => s@ == "Warning"@,
                Level::Error => s@ == "Error"@,
            },
    {
        match self {
            Level::Info => "Info",
            Level::Success => "Success",
            Level::Warning => "Warning",
            Level::Error => "Error",
        }
    }
}

/// Identifier of a toast: an opaque counter value.
///
/// Identifiers are issued strictly increasing by [`crate::store::ToastStore`],
/// so an issued identifier is never reused.  Callers compare identifiers by
/// equality only.
#[derive(Copy, Clone, Debug, PartialEq, Eq, Structural, PartialOrd)]
pub struct Id(usize);

impl Id {
    /// The counter value behind the identifier.
    pub closed spec fn spec_val(self) -> usize {
        self.0
    }

    /// The first identifier a fresh store will issue.
    pub fn new() -> (id: Id)
        ensures
            id.spec_val() == 0,
    {
        Id(0)
    }

    /// The identifier issued after this one.
    pub fn next(&self) -> (id: Id)
        requires
            self.spec_val() < usize::MAX,
        ensures
            id.spec_val() == self.spec_val() + 1,
    {
        Id(self.0 + 1)
    }
}

/// A single notification's state.
///
/// Timestamps (`expiry`) are absolute instants on the host's clock; the core
/// never reads a clock itself and only compares and adds such values.  The
/// `on_dismiss` and action payloads are opaque to the core and are handed
/// back verbatim when the toast is removed or its action is activated.
#[derive(Clone, Debug)]
pub struct Toast<T> {
    /// Identifier unique within the store that issued it.
    pub id: Id,
    /// Absolute instant after which the toast may be removed automatically.
    pub expiry: u64,
    /// Styling hint.
    pub level: Level,
    /// Optional heading shown above the message.
    pub title: Option<String>,
    /// Body text of the notification.
    pub message: String,
    /// Optional secondary action: its label and an opaque payload.
    pub action: Option<(String, T)>,
    /// Opaque payload handed back to the host when this toast is removed.
    pub on_dismiss: T,
}

} // verus!
