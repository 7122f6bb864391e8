use vstd::prelude::*;
use vstd::string::{StrSliceExecFns, StringExecFns};
use crate::backend::{results_view, BackendSearchResult, MasterBackend};
use crate::error::{BackendError, SessionError};
use crate::strutil::{
    find_first, parse_index, spec_find_char, spec_is_numeric, spec_num_value, str_eq,
};
use crate::youtube::yt_results_model;

verus! {

/// A fixed message for the output stream.
#[derive(Clone, Copy, Debug, PartialEq, Eq, Structural)]
pub enum MessageKind {
    EmptyQuery,
    Unrecognized,
    /// Carries the new skip-download flag after a toggle.
    DownloadMode(bool),
    NothingPlaying,
    Help,
}

/// What the surrounding shell must do after a command was handled: print,
/// fetch, hand a source to the playback engine, or report a fatal error.
/// The engine decides; the shell only performs.
#[derive(Debug)]
pub enum Step {
    Message(MessageKind),
    /// Print one cycled result and render its thumbnail.
    ShowResult { index: usize, item: BackendSearchResult },
    /// Print the freshly selected result and render its thumbnail.
    ShowSelected { item: BackendSearchResult },
    /// Print the current selection and render its thumbnail.
    ShowNowPlaying { item: BackendSearchResult },
    /// Fetch search results for this query, then hand the body back
    /// through `on_query_response`.
    QuerySearch { query: String },
    /// Fetch results related to this id, then hand the body back
    /// through `on_query_response`.
    QueryRelated { id: String },
    /// Obtain a playable source for this id — a stream locator when
    /// `skip_download` is set, a downloaded file otherwise — and load it,
    /// appending instead of replacing when `append` is set.
    PlayAudio { id: String, skip_download: bool, append: bool },
    Pause,
    Resume,
    Stop,
    ToggleLoop,
    ShowTimeRemaining,
    /// A fatal session error: report it and stop the read loop.
    Fail(SessionError),
}

/// The session engine: the current result set, the cycle cursor, the
/// current selection and the skip-download flag, together with the pure
/// part of the search backend.
pub struct CommandCenter {
    pub currents: Vec<BackendSearchResult>,
    pub current: Option<BackendSearchResult>,
    pub cycle_ctr: usize,
    pub nodl: bool,
    pub backend: MasterBackend,
}

/// The index the next cycle call shows: the cursor itself, or zero once the
/// cursor has run past the end.
pub open spec fn spec_cycle_index(ctr: nat, len: nat) -> nat {
    if ctr < len {
        ctr
    } else {
        0
    }
}

impl CommandCenter {
    pub fn new(backend: MasterBackend) -> (r: CommandCenter)
        ensures
            r.currents@.len() == 0,
            r.current is None,
            r.cycle_ctr == 0,
            r.nodl == false,
            r.backend == backend,
    {
        CommandCenter {
            currents: Vec::new(),
            current: None,
            cycle_ctr: 0,
            nodl: false,
            backend,
        }
    }

    /// Installs a fresh result set, wholesale, and resets the cycle cursor;
    /// the selection and the skip-download flag are untouched.
    pub fn apply_results(&mut self, results: Vec<BackendSearchResult>)
        ensures
            final(self).currents == results,
            final(self).cycle_ctr == 0,
            final(self).current == old(self).current,
            final(self).nodl == old(self).nodl,
            final(self).backend == old(self).backend,
    {
        self.cycle_ctr = 0;
        self.currents = results;
    }

    /// Shows the result under the cursor, wrapping to the front once the
    /// cursor has run past the end, and advances the cursor by one.
    pub fn cycle(&mut self) -> (r: Result<(usize, BackendSearchResult), SessionError>)
        ensures
            final(self).current == old(self).current,
            final(self).nodl == old(self).nodl,
            final(self).currents == old(self).currents,
            final(self).backend == old(self).backend,
            old(self).currents@.len() == 0 ==> (r matches Err(e) && e == SessionError::EmptyResults
                && final(self).cycle_ctr == old(self).cycle_ctr),
            old(self).currents@.len() > 0 ==> ({
                let i = spec_cycle_index(old(self).cycle_ctr as nat, old(self).currents@.len());
                r matches Ok(p) && p.0 == i && p.1 == old(self).currents@[i as int]
                    && final(self).cycle_ctr == i + 1
            }),
    {
        if self.currents.len() == 0 {
            return Err(SessionError::EmptyResults);
        }
        let i = if self.cycle_ctr < self.currents.len() {
            self.cycle_ctr
        } else {
            0
        };
        let item = self.currents[i].clone();
        self.cycle_ctr = i + 1;
        Ok((i, item))
    }

    /// Makes the result at the given index the current selection, removing
    /// it from the result set. A non-numeric or out-of-range argument
    /// changes nothing.
    pub fn select(&mut self, sel: &str) -> (r: Result<(usize, BackendSearchResult), SessionError>)
        ensures
            final(self).nodl == old(self).nodl,
            final(self).cycle_ctr == old(self).cycle_ctr,
            final(self).backend == old(self).backend,
            match r {
                Ok(p) => {
                    &&& spec_is_numeric(sel@)
                    &&& p.0 == spec_num_value(sel@)
                    &&& p.0 < old(self).currents@.len()
                    &&& p.1 == old(self).currents@[p.0 as int]
                    &&& final(self).current == Some(old(self).currents@[p.0 as int])
                    &&& final(self).currents@ == old(self).currents@.remove(p.0 as int)
                },
                Err(e) => {
                    &&& e == SessionError::BadSelection
                    &&& final(self).current == old(self).current
                    &&& final(self).currents == old(self).currents
                    &&& (!spec_is_numeric(sel@) || spec_num_value(sel@)
                        >= old(self).currents@.len())
                },
            },
    {
        let n = self.currents.len();
        let idx = match parse_index(sel) {
            Some(v) => v,
            None => {
                return Err(SessionError::BadSelection);
            },
        };
        if idx >= n {
            return Err(SessionError::BadSelection);
        }
        let item = self.currents.remove(idx);
        let shown = item.clone();
        self.current = Some(item);
        Ok((idx, shown))
    }

    /// Flips the skip-download flag and reports its new value.
    pub fn toggle_download(&mut self) -> (r: bool)
        ensures
            final(self).nodl == !old(self).nodl,
            r == final(self).nodl,
            final(self).currents == old(self).currents,
            final(self).current == old(self).current,
            final(self).cycle_ctr == old(self).cycle_ctr,
            final(self).backend == old(self).backend,
    {
        self.nodl = !self.nodl;
        self.nodl
    }

    /// The current selection, if any.
    pub fn now(&self) -> (r: Option<BackendSearchResult>)
        ensures
            r == self.current,
    {
        match &self.current {
            Some(c) => Some(c.clone()),
            None => None,
        }
    }
}

/// The first whitespace-delimited token of a command line.
pub open spec fn verb_of(line: Seq<char>) -> Seq<char> {
    match spec_find_char(line, ' ') {
        Some(i) => line.take(i),
        None => line,
    }
}

/// What follows the first space of a command line, if there is one.
pub open spec fn arg_of(line: Seq<char>) -> Option<Seq<char>> {
    match spec_find_char(line, ' ') {
        Some(i) => Some(line.subrange(i + 1, line.len() as int)),
        None => None,
    }
}

/// Splits a command line into its verb and its argument.
pub fn split_command(line: &str) -> (r: (&str, Option<&str>))
    ensures
        r.0@ == verb_of(line@),
        match r.1 {
            Some(a) => arg_of(line@) == Some(a@),
            None => arg_of(line@) is None,
        },
{
    match find_first(line, ' ') {
        Some(i) => {
            let len = line.unicode_len();
            let verb = line.substring_char(0, i);
            let arg = line.substring_char(i + 1, len);
            proof {
                assert(verb@ =~= verb_of(line@));
            }
            (verb, Some(arg))
        },
        None => (line, None),
    }
}

/// The text of a fixed message.
pub open spec fn spec_message_text(k: MessageKind) -> Seq<char> {
    match k {
        MessageKind::EmptyQuery => "Please enter non-empty search terms"@,
        MessageKind::Unrecognized => "Unrecognized command! Try 'help'"@,
        MessageKind::DownloadMode(skip) => if skip {
            "Toggling download mode: OFF"@
        } else {
            "Toggling download mode: ON"@
        },
        MessageKind::NothingPlaying => "Nothing currently playing."@,
        MessageKind::Help => (
        "Commands: search <text> | select <index> | play [<index>] | queue [<index>] | related | cycle | now | pause | resume | stop | loop | download | help"@),
    }
}

pub fn message_text(k: &MessageKind) -> (r: String)
    ensures
        r@ == spec_message_text(*k),
{
    match k {
        MessageKind::EmptyQuery => String::from_str("Please enter non-empty search terms"),
        MessageKind::Unrecognized => String::from_str("Unrecognized command! Try 'help'"),
        MessageKind::DownloadMode(skip) => if *skip {
            String::from_str("Toggling download mode: OFF")
        } else {
            String::from_str("Toggling download mode: ON")
        },
        MessageKind::NothingPlaying => String::from_str("Nothing currently playing."),
        MessageKind::Help => String::from_str(
            "Commands: search <text> | select <index> | play [<index>] | queue [<index>] | related | cycle | now | pause | resume | stop | loop | download | help",
        ),
    }
}

/// A valid selection argument: a number naming an index of the result set.
pub open spec fn sel_valid(pre: CommandCenter, a: Seq<char>) -> bool {
    spec_is_numeric(a) && spec_num_value(a) < pre.currents@.len()
}

pub open spec fn sel_index(a: Seq<char>) -> int {
    spec_num_value(a)
}

/// The state change of a successful selection: the chosen result becomes
/// current and leaves the result set; cursor and flag stay.
pub open spec fn select_ok_post(pre: CommandCenter, post: CommandCenter, a: Seq<char>) -> bool {
    &&& post.current == Some(pre.currents@[sel_index(a)])
    &&& post.currents@ == pre.currents@.remove(sel_index(a))
    &&& post.cycle_ctr == pre.cycle_ctr
    &&& post.nodl == pre.nodl
    &&& post.backend == pre.backend
}

/// `search`: a non-empty query is sent to the backend; an absent or empty
/// query is rejected with a message and no state change.
pub open spec fn search_post(
    pre: CommandCenter,
    post: CommandCenter,
    arg: Option<Seq<char>>,
    steps: Seq<Step>,
) -> bool {
    match arg {
        Some(q) => if q.len() > 0 {
            &&& post == pre
            &&& steps.len() == 1
            &&& (steps[0] matches Step::QuerySearch { query } && query@ == q)
        } else {
            &&& post == pre
            &&& steps.len() == 1
            &&& steps[0] == Step::Message(MessageKind::EmptyQuery)
        },
        None => {
            &&& post == pre
            &&& steps.len() == 1
            &&& steps[0] == Step::Message(MessageKind::EmptyQuery)
        },
    }
}

/// `related`: needs a selection, whose id is sent to the backend.
pub open spec fn related_post(pre: CommandCenter, post: CommandCenter, steps: Seq<Step>) -> bool {
    match pre.current {
        Some(c) => {
            &&& post == pre
            &&& steps.len() == 1
            &&& (steps[0] matches Step::QueryRelated { id } && id == c.id)
        },
        None => {
            &&& post == pre
            &&& steps.len() == 1
            &&& steps[0] == Step::Fail(SessionError::NoSelection)
        },
    }
}

/// `cycle`: shows the result under the cursor and advances it; fatal on an
/// empty result set.
pub open spec fn cycle_post(pre: CommandCenter, post: CommandCenter, steps: Seq<Step>) -> bool {
    if pre.currents@.len() == 0 {
        &&& post == pre
        &&& steps.len() == 1
        &&& steps[0] == Step::Fail(SessionError::EmptyResults)
    } else {
        let i = spec_cycle_index(pre.cycle_ctr as nat, pre.currents@.len());
        &&& post.currents == pre.currents
        &&& post.current == pre.current
        &&& post.nodl == pre.nodl
        &&& post.backend == pre.backend
        &&& post.cycle_ctr == i + 1
        &&& steps.len() == 1
        &&& (steps[0] matches Step::ShowResult { index, item } && index == i && item
            == pre.currents@[i as int])
    }
}

/// `select`: strict bounds checking — a bad index is fatal and mutates
/// nothing, a good one becomes the selection and is shown.
pub open spec fn select_post(
    pre: CommandCenter,
    post: CommandCenter,
    arg: Option<Seq<char>>,
    steps: Seq<Step>,
) -> bool {
    match arg {
        Some(a) => if sel_valid(pre, a) {
            &&& select_ok_post(pre, post, a)
            &&& steps.len() == 1
            &&& (steps[0] matches Step::ShowSelected { item } && item
                == pre.currents@[sel_index(a)])
        } else {
            &&& post == pre
            &&& steps.len() == 1
            &&& steps[0] == Step::Fail(SessionError::BadSelection)
        },
        None => {
            &&& post == pre
            &&& steps.len() == 1
            &&& steps[0] == Step::Fail(SessionError::BadSelection)
        },
    }
}

/// `play` and `queue`: an optional immediate selection, then a playable
/// source for the current selection is obtained and loaded. `play`
/// replaces the playlist and resumes; `queue` appends.
pub open spec fn play_post(
    pre: CommandCenter,
    post: CommandCenter,
    arg: Option<Seq<char>>,
    steps: Seq<Step>,
    append: bool,
) -> bool {
    match arg {
        Some(a) => if sel_valid(pre, a) {
            &&& select_ok_post(pre, post, a)
            &&& steps.len() == (if append { 2int } else { 3int })
            &&& (steps[0] matches Step::ShowSelected { item } && item
                == pre.currents@[sel_index(a)])
            &&& (steps[1] matches Step::PlayAudio { id, skip_download, append: ap } && id
                == pre.currents@[sel_index(a)].id && skip_download == pre.nodl && ap == append)
            &&& (!append ==> steps[2] == Step::Resume)
        } else {
            &&& post == pre
            &&& steps.len() == 1
            &&& steps[0] == Step::Fail(SessionError::BadSelection)
        },
        None => match pre.current {
            Some(c) => {
                &&& post == pre
                &&& steps.len() == (if append { 1int } else { 2int })
                &&& (steps[0] matches Step::PlayAudio { id, skip_download, append: ap } && id
                    == c.id && skip_download == pre.nodl && ap == append)
                &&& (!append ==> steps[1] == Step::Resume)
            },
            None => {
                &&& post == pre
                &&& steps.len() == 1
                &&& steps[0] == Step::Fail(SessionError::NoSelection)
            },
        },
    }
}

/// `now`: shows the current selection, or says nothing is playing, and in
/// either case reports the remaining time.
pub open spec fn now_post(pre: CommandCenter, post: CommandCenter, steps: Seq<Step>) -> bool {
    match pre.current {
        Some(c) => {
            &&& post == pre
            &&& steps.len() == 2
            &&& (steps[0] matches Step::ShowNowPlaying { item } && item == c)
            &&& steps[1] == Step::ShowTimeRemaining
        },
        None => {
            &&& post == pre
            &&& steps.len() == 2
            &&& steps[0] == Step::Message(MessageKind::NothingPlaying)
            &&& steps[1] == Step::ShowTimeRemaining
        },
    }
}

/// `download`: flips the skip-download flag and reports the new mode.
pub open spec fn download_post(pre: CommandCenter, post: CommandCenter, steps: Seq<Step>) -> bool {
    &&& post.nodl == !pre.nodl
    &&& post.currents == pre.currents
    &&& post.current == pre.current
    &&& post.cycle_ctr == pre.cycle_ctr
    &&& post.backend == pre.backend
    &&& steps.len() == 1
    &&& steps[0] == Step::Message(MessageKind::DownloadMode(post.nodl))
}

pub open spec fn known_verb(v: Seq<char>) -> bool {
    ||| v == ""@
    ||| v == "search"@
    ||| v == "related"@
    ||| v == "cycle"@
    ||| v == "select"@
    ||| v == "play"@
    ||| v == "queue"@
    ||| v == "now"@
    ||| v == "pause"@
    ||| v == "resume"@
    ||| v == "stop"@
    ||| v == "loop"@
    ||| v == "download"@
    ||| v == "help"@
}

/// The command verbs of equal length differ in their characters; spelling
/// one such character of each out lets the solver tell the verbs apart.
proof fn lemma_verbs_distinct()
    ensures
        "search"@ != "select"@,
        "search"@ != "resume"@,
        "select"@ != "resume"@,
        "cycle"@ != "queue"@,
        "cycle"@ != "pause"@,
        "queue"@ != "pause"@,
        "play"@ != "stop"@,
        "play"@ != "loop"@,
        "play"@ != "help"@,
        "stop"@ != "loop"@,
        "stop"@ != "help"@,
        "loop"@ != "help"@,
{
    reveal_strlit("search");
    reveal_strlit("select");
    reveal_strlit("resume");
    reveal_strlit("cycle");
    reveal_strlit("queue");
    reveal_strlit("pause");
    reveal_strlit("play");
    reveal_strlit("stop");
    reveal_strlit("loop");
    reveal_strlit("help");
    assert("search"@[2] == 'a');
    assert("select"@[2] == 'l');
    assert("search"@[0] == 's');
    assert("select"@[0] == 's');
    assert("resume"@[0] == 'r');
    assert("cycle"@[0] == 'c');
    assert("queue"@[0] == 'q');
    assert("pause"@[0] == 'p');
    assert("play"@[0] == 'p');
    assert("stop"@[0] == 's');
    assert("loop"@[0] == 'l');
    assert("help"@[0] == 'h');
}

impl CommandCenter {
    /// Handles one command line: parses it, applies its effect on the
    /// session state, and says what the surrounding shell must now do.
    pub fn handle_command(&mut self, line: &str) -> (steps: Vec<Step>)
        ensures
            ({
                let v = verb_of(line@);
                let a = arg_of(line@);
                &&& (v == ""@ ==> *final(self) == *old(self) && steps@.len() == 0)
                &&& (v == "search"@ ==> search_post(*old(self), *final(self), a, steps@))
                &&& (v == "related"@ ==> related_post(*old(self), *final(self), steps@))
                &&& (v == "cycle"@ ==> cycle_post(*old(self), *final(self), steps@))
                &&& (v == "select"@ ==> select_post(*old(self), *final(self), a, steps@))
                &&& (v == "play"@ ==> play_post(*old(self), *final(self), a, steps@, false))
                &&& (v == "queue"@ ==> play_post(*old(self), *final(self), a, steps@, true))
                &&& (v == "now"@ ==> now_post(*old(self), *final(self), steps@))
                &&& (v == "pause"@ ==> *final(self) == *old(self) && steps@ =~= seq![Step::Pause])
                &&& (v == "resume"@ ==> *final(self) == *old(self) && steps@ =~= seq![
                    Step::Resume,
                ])
                &&& (v == "stop"@ ==> *final(self) == *old(self) && steps@ =~= seq![Step::Stop])
                &&& (v == "loop"@ ==> *final(self) == *old(self) && steps@ =~= seq![
                    Step::ToggleLoop,
                ])
                &&& (v == "download"@ ==> download_post(*old(self), *final(self), steps@))
                &&& (v == "help"@ ==> *final(self) == *old(self) && steps@ =~= seq![
                    Step::Message(MessageKind::Help),
                ])
                &&& (!known_verb(v) ==> *final(self) == *old(self) && steps@ =~= seq![
                    Step::Message(MessageKind::Unrecognized),
                ])
            }),
    {
        proof {
            reveal_strlit("");
            reveal_strlit("search");
            reveal_strlit("related");
            reveal_strlit("cycle");
            reveal_strlit("select");
            reveal_strlit("play");
            reveal_strlit("queue");
            reveal_strlit("now");
            reveal_strlit("pause");
            reveal_strlit("resume");
            reveal_strlit("stop");
            reveal_strlit("loop");
            reveal_strlit("download");
            reveal_strlit("help");
            lemma_verbs_distinct();
        }
        let (verb, arg) = split_command(line);
        let mut steps: Vec<Step> = Vec::new();
        if verb.unicode_len() == 0 {
            proof {
                assert(verb@ =~= ""@);
            }
            return steps;
        }
        if str_eq(verb, "search") {
            match arg {
                Some(q) => {
                    if q.unicode_len() > 0 {
                        steps.push(
                            Step::QuerySearch { query: String::from_str(q) },
                        );
                    } else {
                        steps.push(Step::Message(MessageKind::EmptyQuery));
                    }
                },
                None => {
                    steps.push(Step::Message(MessageKind::EmptyQuery));
                },
            }
        } else if str_eq(verb, "related") {
            match &self.current {
                Some(c) => {
                    let id = c.id.clone();
                    steps.push(Step::QueryRelated { id });
                },
                None => {
                    steps.push(Step::Fail(SessionError::NoSelection));
                },
            }
        } else if str_eq(verb, "cycle") {
            match self.cycle() {
                Ok((index, item)) => {
                    steps.push(Step::ShowResult { index, item });
                },
                Err(e) => {
                    steps.push(Step::Fail(e));
                },
            }
        } else if str_eq(verb, "select") {
            match arg {
                Some(a) => {
                    match self.select(a) {
                        Ok((idx, item)) => {
                            proof {
                                assert(idx == sel_index(a@));
                            }
                            steps.push(Step::ShowSelected { item });
                        },
                        Err(e) => {
                            steps.push(Step::Fail(e));
                        },
                    }
                },
                None => {
                    steps.push(Step::Fail(SessionError::BadSelection));
                },
            }
        } else if str_eq(verb, "play") {
            self.play_or_queue(arg, false, &mut steps);
        } else if str_eq(verb, "queue") {
            self.play_or_queue(arg, true, &mut steps);
        } else if str_eq(verb, "now") {
            match &self.current {
                Some(c) => {
                    steps.push(Step::ShowNowPlaying { item: c.clone() });
                },
                None => {
                    steps.push(Step::Message(MessageKind::NothingPlaying));
                },
            }
            steps.push(Step::ShowTimeRemaining);
        } else if str_eq(verb, "pause") {
            steps.push(Step::Pause);
        } else if str_eq(verb, "resume") {
            steps.push(Step::Resume);
        } else if str_eq(verb, "stop") {
            steps.push(Step::Stop);
        } else if str_eq(verb, "loop") {
            steps.push(Step::ToggleLoop);
        } else if str_eq(verb, "download") {
            let skip = self.toggle_download();
            steps.push(Step::Message(MessageKind::DownloadMode(skip)));
        } else if str_eq(verb, "help") {
            steps.push(Step::Message(MessageKind::Help));
        } else {
            steps.push(Step::Message(MessageKind::Unrecognized));
        }
        steps
    }

    /// The shared tail of `play` and `queue`: optionally select first, then
    /// ask for a playable source for the current selection.
    fn play_or_queue(&mut self, arg: Option<&str>, append: bool, steps: &mut Vec<Step>)
        requires
            old(steps)@.len() == 0,
        ensures
            play_post(
                *old(self),
                *final(self),
                match arg {
                    Some(a) => Some(a@),
                    None => None,
                },
                final(steps)@,
                append,
            ),
    {
        match arg {
            Some(a) => {
                match self.select(a) {
                    Ok((idx, item)) => {
                        proof {
                            assert(idx == sel_index(a@));
                        }
                        let id = item.id.clone();
                        steps.push(Step::ShowSelected { item });
                        steps.push(
                            Step::PlayAudio { id, skip_download: self.nodl, append },
                        );
                        if !append {
                            steps.push(Step::Resume);
                        }
                    },
                    Err(e) => {
                        steps.push(Step::Fail(e));
                    },
                }
            },
            None => {
                match &self.current {
                    Some(c) => {
                        let id = c.id.clone();
                        steps.push(
                            Step::PlayAudio { id, skip_download: self.nodl, append },
                        );
                        if !append {
                            steps.push(Step::Resume);
                        }
                    },
                    None => {
                        steps.push(Step::Fail(SessionError::NoSelection));
                    },
                }
            },
        }
    }

    /// Absorbs the raw body of a search or related query: decodes it,
    /// installs the results with the cursor reset, and shows the first one,
    /// exactly as a fresh cycle would.
    pub fn on_query_response(&mut self, body: &str) -> (steps: Vec<Step>)
        ensures
            final(self).nodl == old(self).nodl,
            final(self).current == old(self).current,
            final(self).backend == old(self).backend,
            match yt_results_model(body@) {
                None => *final(self) == *old(self) && steps@.len() == 1 && steps@[0]
                    == Step::Fail(SessionError::Backend(BackendError::MalformedResponse)),
                Some(rs) => {
                    &&& results_view(final(self).currents@) == rs
                    &&& if rs.len() == 0 {
                        final(self).cycle_ctr == 0 && steps@.len() == 1 && steps@[0]
                            == Step::Fail(SessionError::EmptyResults)
                    } else {
                        final(self).cycle_ctr == 1 && steps@.len() == 1 && (
                        steps@[0] matches Step::ShowResult { index, item } && index == 0 && item
                            == final(self).currents@[0])
                    }
                },
            },
    {
        let mut steps: Vec<Step> = Vec::new();
        let parsed = self.backend.parse_response(body);
        match parsed {
            Ok(results) => {
                self.apply_results(results);
                match self.cycle() {
                    Ok((index, item)) => {
                        steps.push(Step::ShowResult { index, item });
                    },
                    Err(e) => {
                        steps.push(Step::Fail(e));
                    },
                }
            },
            Err(e) => {
                steps.push(Step::Fail(SessionError::Backend(e)));
            },
        }
        steps
    }
}

/// The cursor after a run of `k` cycle calls that began with cursor
/// `start`, on a result set of length `len`: each call wraps the cursor if
/// it ran past the end, then moves it one past the index it showed.
pub open spec fn ctr_after(start: nat, len: nat, k: nat) -> nat
    decreases k,
{
    if k == 0 {
        start
    } else {
        spec_cycle_index(ctr_after(start, len, (k - 1) as nat), len) + 1
    }
}

/// The index shown by the call number `k` (counting from zero) of a run of
/// cycle calls that began with cursor `start`.
pub open spec fn shown_at(start: nat, len: nat, k: nat) -> nat {
    spec_cycle_index(ctr_after(start, len, k), len)
}

/// One `cycle` call behaves as one step of the abstract run: its contract
/// shows `spec_cycle_index` of the cursor and leaves the cursor one past
/// the shown index, which is exactly how `ctr_after` and `shown_at` step.
pub proof fn lemma_cycle_step_matches_run(start: nat, len: nat, k: nat)
    requires
        1 <= len,
    ensures
        shown_at(start, len, k) == spec_cycle_index(ctr_after(start, len, k), len),
        ctr_after(start, len, k + 1) == shown_at(start, len, k) + 1,
{
}

/// Cycle wraparound, closed form: a run of cycle calls walks the indices
/// one by one from wherever it started and wraps past the last one to
/// index zero.
pub proof fn lemma_cycle_wraparound(start: nat, len: nat, k: nat)
    requires
        1 <= len,
        k <= len,
    ensures
        shown_at(start, len, k) == if spec_cycle_index(start, len) + k < len {
            spec_cycle_index(start, len) + k as int
        } else {
            spec_cycle_index(start, len) + k - len
        },
    decreases k,
{
    if k > 0 {
        lemma_cycle_wraparound(start, len, (k - 1) as nat);
    }
}

/// Cycle wraparound: over `len` consecutive cycle calls no index is shown
/// twice, so together with the closed form every index is visited exactly
/// once, in order.
pub proof fn lemma_cycle_visits_each_once(start: nat, len: nat, k1: nat, k2: nat)
    requires
        1 <= len,
        k1 < len,
        k2 < len,
        shown_at(start, len, k1) == shown_at(start, len, k2),
    ensures
        k1 == k2,
{
    lemma_cycle_wraparound(start, len, k1);
    lemma_cycle_wraparound(start, len, k2);
}

/// After a full pass the run is back where it began: the call after the
/// last index repeats the first index shown.
pub proof fn lemma_cycle_wraps_to_start(start: nat, len: nat)
    requires
        1 <= len,
    ensures
        shown_at(start, len, len) == shown_at(start, len, 0),
{
    lemma_cycle_wraparound(start, len, len);
    lemma_cycle_wraparound(start, len, 0);
}

/// Reset on query: a query resets the cursor to zero, and from cursor zero
/// the calls of a cycle run show the indices in their natural order,
/// starting at index zero.
pub proof fn lemma_cycle_from_reset(len: nat, k: nat)
    requires
        1 <= len,
        k < len,
    ensures
        shown_at(0, len, k) == k,
{
    lemma_cycle_wraparound(0, len, k);
}

} // verus!
