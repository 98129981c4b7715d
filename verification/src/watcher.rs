//! What the file watchers report, and which reports are passed on to the
//! loop that loads the TLS files again.
use vstd::prelude::*;

verus! {

/// The kind of a file system event, as the watchers classify it.
#[derive(Clone, Copy, Debug, PartialEq, Eq, Hash, Structural)]
pub enum FsEventKind {
    Any,
    Access,
    Create,
    Modify,
    Remove,
    Other,
}

/// Whether an event of kind `kind` changes a watched file.
pub open spec fn is_change_kind(kind: FsEventKind) -> bool {
    kind is Create || kind is Modify || kind is Remove
}

/// A report of the watcher: one event when polling, the events gathered over
/// the debounce time otherwise.
#[derive(Clone, Debug, PartialEq, Eq)]
pub enum WatchEvent {
    Poll(FsEventKind),
    Debounce(Vec<FsEventKind>),
}

/// A failure of the watcher, by its messages.
#[derive(Clone, Debug, PartialEq, Eq)]
pub enum WatchError {
    Poll(String),
    Debounce(Vec<String>),
}

impl WatchEvent {
    /// Whether the report tells of a change: its event does, or one of its events does.
    pub open spec fn is_change(self) -> bool {
        match self {
            WatchEvent::Poll(kind) => is_change_kind(kind),
            WatchEvent::Debounce(kinds) => exists|i: int|
                0 <= i < kinds@.len() && #[trigger] is_change_kind(kinds@[i]),
        }
    }

    fn _is_change_event(kind: FsEventKind) -> (r: bool)
        ensures
            r == is_change_kind(kind),
    {
        match kind {
            FsEventKind::Modify | FsEventKind::Create | FsEventKind::Remove => true,
            _ => false,
        }
    }

    pub fn is_change_event(&self) -> (r: bool)
        ensures
            r == self.is_change(),
            self matches WatchEvent::Debounce(ks) ==> forall|i: int|
                0 <= i < ks@.len() && #[trigger] is_change_kind(ks@[i]) ==> r,
    {
        match self {
            WatchEvent::Poll(kind) => WatchEvent::_is_change_event(*kind),
            WatchEvent::Debounce(kinds) => {
                let mut i: usize = 0;
                while i < kinds.len()
                    invariant
                        i <= kinds@.len(),
                        *self == WatchEvent::Debounce(*kinds),
                        forall|j: int| 0 <= j < i ==> !#[trigger] is_change_kind(kinds@[j]),
                    decreases kinds@.len() - i,
                {
                    if WatchEvent::_is_change_event(kinds[i]) {
                        assert(is_change_kind(kinds@[i as int]));
                        assert(self matches WatchEvent::Debounce(ks) && ks@ == kinds@);
                        return true;
                    }
                    i = i + 1;
                }
                false
            },
        }
    }
}

/// The kinds that change a file are exactly creation, modification and removal.
pub proof fn lemma_change_kinds(kind: FsEventKind)
    ensures
        is_change_kind(kind) <==> (kind == FsEventKind::Create || kind == FsEventKind::Modify || kind
            == FsEventKind::Remove),
{
}

/// A debounced report tells of a change when any one of its events, at any
/// position, is a change; and only then.
pub proof fn lemma_debounced_change_anywhere(kinds: Vec<FsEventKind>, i: int)
    ensures
        0 <= i < kinds@.len() && is_change_kind(kinds@[i]) ==> WatchEvent::Debounce(kinds).is_change(),
        (forall|j: int| 0 <= j < kinds@.len() ==> !is_change_kind(#[trigger] kinds@[j]))
            ==> !WatchEvent::Debounce(kinds).is_change(),
{
    if 0 <= i < kinds@.len() && is_change_kind(kinds@[i]) {
        assert(WatchEvent::Debounce(kinds) matches WatchEvent::Debounce(ks) && ks@ == kinds@);
    }
}

/// A debounced report is passed on when any one of its events is a change,
/// whatever the events around it; a polled report when its event is a change;
/// an error always.
pub proof fn lemma_forwarded_reports(kinds: Vec<FsEventKind>, i: int, kind: FsEventKind, error: WatchError)
    ensures
        0 <= i < kinds@.len() && is_change_kind(kinds@[i]) ==> !(Ok::<WatchEvent, WatchError>(
            WatchEvent::Debounce(kinds),
        ) matches Ok(event) && !event.is_change()),
        WatchEvent::Poll(kind).is_change() == is_change_kind(kind),
        !(Err::<WatchEvent, WatchError>(error) matches Ok(event) && !event.is_change()),
{
    lemma_debounced_change_anywhere(kinds, i);
}

/// Whether the watcher passes a report on: every error, and every event that
/// tells of a change; other events are dropped.
pub fn should_forward(report: &Result<WatchEvent, WatchError>) -> (r: bool)
    ensures
        r == !(report matches Ok(event) && !event.is_change()),
        report matches Ok(WatchEvent::Debounce(ks)) ==> forall|i: int|
            0 <= i < ks@.len() && #[trigger] is_change_kind(ks@[i]) ==> r,
{
    match report {
        Ok(event) => event.is_change_event(),
        Err(_) => true,
    }
}

/// The line that reports one error of a debounced watch.
pub open spec fn debounce_error_line(error: Seq<char>) -> Seq<char> {
    "Debounce watch error: "@ + error + "\n"@
}

/// The lines that report the errors of a debounced watch, in order.
pub open spec fn debounce_error_text(errors: Seq<Seq<char>>) -> Seq<char>
    decreases errors.len(),
{
    if errors.len() == 0 {
        Seq::empty()
    } else {
        debounce_error_text(errors.drop_last()) + debounce_error_line(errors.last())
    }
}

impl WatchError {
    /// The error's message: `Poll watch error: ` and the error, or a line
    /// `Debounce watch error: ` and the error for each error.
    pub open spec fn message_view(self) -> Seq<char> {
        match self {
            WatchError::Poll(e) => "Poll watch error: "@ + e@,
            WatchError::Debounce(errors) => debounce_error_text(
                errors@.map_values(|e: String| e@),
            ),
        }
    }

    pub fn message(&self) -> (r: String)
        ensures
            r@ == self.message_view(),
    {
        match self {
            WatchError::Poll(e) => {
                let mut text = String::from_str("Poll watch error: ");
                text.append(e.as_str());
                text
            },
            WatchError::Debounce(errors) => {
                let ghost views = errors@.map_values(|e: String| e@);
                let mut text = String::new();
                let mut i: usize = 0;
                while i < errors.len()
                    invariant
                        i <= errors@.len(),
                        views == errors@.map_values(|e: String| e@),
                        text@ == debounce_error_text(views.take(i as int)),
                    decreases errors@.len() - i,
                {
                    text.append("Debounce watch error: ");
                    text.append(errors[i].as_str());
                    text.append("\n");
                    proof {
                        assert(views.take((i + 1) as int).drop_last() == views.take(i as int));
                    }
                    i = i + 1;
                }
                proof {
                    assert(views.take(errors@.len() as int) == views);
                }
                text
            },
        }
    }
}

} // verus!
