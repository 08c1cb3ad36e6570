use vstd::prelude::*;

verus! {

/// Tag carried on the notification channel: which kind of background
/// event completed. The UI event loop is the sole consumer and must be
/// able to tell job kinds apart by this tag alone.
#[derive(Clone, Copy, Debug, PartialEq, Eq, Structural)]
pub enum Notification {
    /// A syntax-highlighting worker finished and wrote the result slot.
    SyntaxHighlighting,
    /// Some other kind of background work finished; in the surrounding
    /// application many kinds share the channel, and the viewer must leave
    /// their messages alone.
    OtherBackgroundWork,
}

} // verus!
