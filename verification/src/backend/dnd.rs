//! One drag gesture, as GDK reports it.
//!
//! The gesture's state is held as plain values: the action that GDK
//! suggests, the formats that the drag source offers, the payloads that were
//! fetched, and the answer that is to go back to GDK.

use crate::dnd::DropAction;
use crate::text::same_text;
use crate::uri_list::decode_uri_list;
use crate::uri_list::paths_of;
use crate::uri_list::text_of;
use vstd::prelude::*;
use vstd::utf8::valid_utf8;

verus! {

/// The identifier of a payload format.
pub type FormatId = &'static str;

/// GDK's bit for a copy.
pub const ACTION_COPY: u32 = 2;

/// GDK's bit for a move.
pub const ACTION_MOVE: u32 = 4;

/// No bit: no drop is acceptable.
pub const ACTION_NONE: u32 = 0;

/// The format of a list of files.
pub const URI_LIST: &'static str = "text/uri-list";

/// A payload under the format that it came in.
pub struct ClipboardFormat {
    pub identifier: String,
    pub data: Vec<u8>,
}

/// The state of one drag gesture.
pub struct DropContext {
    suggested: u32,
    targets: Vec<String>,
    clipboard: Vec<ClipboardFormat>,
    time: u32,
    status: Option<u32>,
}

/// Whether one of `targets` is `format`.
pub open spec fn offers(targets: Seq<Seq<char>>, format: Seq<char>) -> bool {
    exists|j: int| 0 <= j < targets.len() && #[trigger] targets[j] == format
}

/// Whether `formats[at]` is the first of `formats` that is among `targets`.
pub open spec fn first_offered_at(targets: Seq<Seq<char>>, formats: Seq<&'static str>, at: int) -> bool {
    &&& 0 <= at < formats.len()
    &&& offers(targets, formats[at]@)
    &&& forall|i: int| 0 <= i < at ==> !offers(targets, #[trigger] formats[i]@)
}

/// Whether the first payload of `clipboard` under `format` is at `at`.
pub open spec fn first_payload_at(clipboard: Seq<ClipboardFormat>, format: Seq<char>, at: int) -> bool {
    &&& 0 <= at < clipboard.len()
    &&& clipboard[at].identifier@ == format
    &&& forall|i: int| 0 <= i < at ==> (#[trigger] clipboard[i]).identifier@ != format
}

/// The first payload of `clipboard` under `format`.
pub open spec fn payload_of(clipboard: Seq<ClipboardFormat>, format: Seq<char>) -> Option<Seq<u8>> {
    if exists|at: int| first_payload_at(clipboard, format, at) {
        Some(clipboard[choose|at: int| first_payload_at(clipboard, format, at)].data@)
    } else {
        None
    }
}

/// The action that the action bits `suggested` stand for: a move where they
/// are exactly the bit for a move, a copy otherwise.
pub open spec fn action_of(suggested: u32) -> DropAction {
    if suggested == ACTION_MOVE {
        DropAction::Move
    } else {
        DropAction::Copy
    }
}

/// The action bits that stand for `action`.
pub open spec fn bits_of(action: DropAction) -> u32 {
    match action {
        DropAction::Copy => ACTION_COPY,
        DropAction::Move => ACTION_MOVE,
    }
}

/// The paths that a drop of files carries: none where no list of files came,
/// or where what came is not text.
pub open spec fn files_of(clipboard: Seq<ClipboardFormat>) -> Option<Seq<Seq<char>>> {
    match payload_of(clipboard, URI_LIST@) {
        Some(payload) => if valid_utf8(payload) {
            Some(paths_of(payload))
        } else {
            None
        },
        None => None,
    }
}

impl DropContext {
    /// The action bits that GDK suggests.
    pub closed spec fn suggested(&self) -> u32 {
        self.suggested
    }

    /// The formats that the drag source offers, in GDK's order.
    pub closed spec fn targets(&self) -> Seq<Seq<char>> {
        self.targets.deep_view()
    }

    /// The payloads that were fetched.
    pub closed spec fn clipboard(&self) -> Seq<ClipboardFormat> {
        self.clipboard@
    }

    /// The time stamp of the gesture.
    pub closed spec fn spec_time(&self) -> u32 {
        self.time
    }

    /// The answer that is to go back to GDK: its action bits, or nothing
    /// where no answer was given yet.
    pub closed spec fn spec_status(&self) -> Option<u32> {
        self.status
    }

    /// The same gesture with another answer.
    pub open spec fn answered(&self, with: DropContext, bits: u32) -> bool {
        &&& with.suggested() == self.suggested()
        &&& with.targets() == self.targets()
        &&& with.clipboard() == self.clipboard()
        &&& with.spec_time() == self.spec_time()
        &&& with.spec_status() == Some(bits)
    }

    /// A gesture that has no answer yet.
    pub fn new(suggested: u32, targets: Vec<String>, clipboard: Vec<ClipboardFormat>, time: u32) -> (ctx:
        DropContext)
        ensures
            ctx.suggested() == suggested,
            ctx.targets() == targets.deep_view(),
            ctx.clipboard() == clipboard@,
            ctx.spec_time() == time,
            ctx.spec_status() == None::<u32>,
    {
        DropContext { suggested, targets, clipboard, time, status: None }
    }

    /// The time stamp of the gesture.
    #[verifier::when_used_as_spec(spec_time)]
    pub fn time(&self) -> (time: u32)
        ensures
            time == self.spec_time(),
    {
        self.time
    }

    /// The answer that is to go back to GDK.
    #[verifier::when_used_as_spec(spec_status)]
    pub fn status(&self) -> (status: Option<u32>)
        ensures
            status == self.spec_status(),
    {
        self.status
    }

    /// Refuses the gesture: no drop is acceptable. A later answer replaces
    /// this one.
    pub fn deny(&mut self)
        ensures
            old(self).answered(*final(self), ACTION_NONE),
    {
        self.status = Some(ACTION_NONE);
    }

    /// The action that GDK suggests: a copy unless it is exactly a move.
    pub fn action(&self) -> (action: DropAction)
        ensures
            action == action_of(self.suggested()),
    {
        if self.suggested == ACTION_MOVE {
            DropAction::Move
        } else {
            DropAction::Copy
        }
    }

    /// Answers with `action`, in place of any earlier answer.
    pub fn set_action(&mut self, action: DropAction)
        ensures
            old(self).answered(*final(self), bits_of(action)),
    {
        self.status = Some(
            match action {
                DropAction::Copy => ACTION_COPY,
                DropAction::Move => ACTION_MOVE,
            },
        );
    }

    /// The payload under `format`: a copy of the first one that was fetched
    /// under it, and nothing where none was.
    pub fn get_format(&self, format: FormatId) -> (payload: Option<Vec<u8>>)
        ensures
            payload is Some == payload_of(self.clipboard(), format@) is Some,
            payload matches Some(data) ==> Some(data@) == payload_of(self.clipboard(), format@),
    {
        let mut i: usize = 0;
        while i < self.clipboard.len()
            invariant
                i <= self.clipboard.len(),
                forall|j: int| 0 <= j < i ==> (#[trigger] self.clipboard@[j]).identifier@ != format@,
            decreases self.clipboard.len() - i,
        {
            if same_text(self.clipboard[i].identifier.as_str(), format) {
                proof {
                    lemma_payload_found(self.clipboard@, format@, i as int);
                }
                return Some(self.clipboard[i].data.clone());
            }
            i += 1;
        }
        proof {
            if exists|at: int| first_payload_at(self.clipboard@, format@, at) {
                let at = choose|at: int| first_payload_at(self.clipboard@, format@, at);
                assert(self.clipboard@[at].identifier@ != format@);
            }
        }
        None
    }

    /// The paths of the files that are dragged.
    ///
    /// There is a result whenever a list of files came and is text. A line of
    /// it that names no file is left out: it does not take the others with
    /// it.
    pub fn files(&self) -> (paths: Option<Vec<String>>)
        ensures
            paths is Some == files_of(self.clipboard()) is Some,
            paths matches Some(list) ==> Some(list.deep_view()) == files_of(self.clipboard()),
    {
        let payload = match self.get_format(URI_LIST) {
            Some(payload) => payload,
            None => {
                return None;
            },
        };
        let paths = decode_uri_list(payload.as_slice());
        match text_of(payload) {
            Some(_) => Some(paths),
            None => None,
        }
    }

    /// The first of `formats`, in the caller's order, that the drag source
    /// offers.
    pub fn preferred_format(&self, formats: &[FormatId]) -> (choice: Option<FormatId>)
        ensures
            match choice {
                Some(format) => exists|at: int|
                    first_offered_at(self.targets(), formats@, at) && format == formats@[at],
                None => forall|i: int|
                    0 <= i < formats@.len() ==> !offers(self.targets(), #[trigger] formats@[i]@),
            },
    {
        let mut i: usize = 0;
        while i < formats.len()
            invariant
                i <= formats.len(),
                forall|k: int| 0 <= k < i ==> !offers(self.targets(), #[trigger] formats@[k]@),
            decreases formats.len() - i,
        {
            if self.is_offered(formats[i]) {
                proof {
                    assert(first_offered_at(self.targets(), formats@, i as int));
                }
                return Some(formats[i]);
            }
            i += 1;
        }
        None
    }

    /// Whether the drag source offers `format`.
    pub fn is_offered(&self, format: &str) -> (yes: bool)
        ensures
            yes == offers(self.targets(), format@),
    {
        let mut j: usize = 0;
        while j < self.targets.len()
            invariant
                j <= self.targets.len(),
                forall|k: int| 0 <= k < j ==> #[trigger] self.targets.deep_view()[k] != format@,
            decreases self.targets.len() - j,
        {
            if same_text(self.targets[j].as_str(), format) {
                proof {
                    assert(self.targets.deep_view()[j as int] == format@);
                }
                return true;
            }
            proof {
                assert(self.targets.deep_view()[j as int] == self.targets@[j as int]@);
            }
            j += 1;
        }
        false
    }
}

proof fn lemma_payload_found(clipboard: Seq<ClipboardFormat>, format: Seq<char>, at: int)
    requires
        first_payload_at(clipboard, format, at),
    ensures
        payload_of(clipboard, format) == Some(clipboard[at].data@),
{
    let other = choose|other: int| first_payload_at(clipboard, format, other);
    assert(first_payload_at(clipboard, format, other));
    if other < at {
        assert(clipboard[other].identifier@ != format);
    }
    if at < other {
        assert(clipboard[at].identifier@ != format);
    }
}

/// An answer replaces the answer before it and changes nothing else: two
/// answers in a row leave the gesture as the second alone would have left
/// it, also where both are the same.
pub proof fn lemma_last_answer_wins(
    start: DropContext,
    between: DropContext,
    end: DropContext,
    first: u32,
    second: u32,
)
    requires
        start.answered(between, first),
        between.answered(end, second),
    ensures
        start.answered(end, second),
{
}

} // verus!
