//! The interface half of self-updating: which step the update is at, what
//! each step says, when asking again is allowed, and which late answers are
//! still allowed to land.
//!
//! The steps are one enum rather than several flags, so "downloading and
//! already up to date" cannot be represented, let alone drawn.

use vstd::prelude::*;
use crate::text::Text;
use crate::textutil::{decimal, push_char, push_decimal, push_str};

verus! {

/// A release newer than the running program.
pub struct Release {
    /// The release's own tag, e.g. `v0.4.0`.
    pub tag: String,
    /// The version it carries, as text, e.g. `0.4.0`.
    pub version: String,
    pub html_url: String,
    pub asset_name: String,
    pub asset_url: String,
    pub asset_size: u64,
}

/// What an install replaced.
pub struct Applied {
    pub install_dir: String,
    /// The version now on disk, as text.
    pub version: String,
    pub replaced: Vec<String>,
    pub left_behind: Vec<String>,
}

/// Why a round of updating did not go through.
pub enum UpdateError {
    /// The release server could not be reached; the detail says why.
    Unreachable(String),
    /// The release server answered with this HTTP status.
    Rejected(u16),
    /// The answer could not be read.
    MalformedRelease(String),
    /// The release has no package for this program.
    NoPackage { tag: String },
    /// The package is over the size limit.
    TooLarge { limit_bytes: u64 },
    /// A file could not be written.
    Storage { path: String, reason: String },
    /// The package is damaged.
    BadArchive(String),
    /// These files do not match the manifest.
    Mismatch(Vec<String>),
    /// The install folder cannot be written.
    ReadOnlyInstall { directory: String },
    /// Replacing stopped halfway: some files are new, some old.
    HalfApplied { reason: String, already_new: Vec<String>, program_restored: bool },
}

/// Where the update is.
pub enum UpdateState {
    /// Not asked yet.
    Idle,
    /// Asking the release server.
    Checking,
    /// Asked; this copy is the newest.
    UpToDate,
    /// A newer version exists and has not been fetched.
    Available(Release),
    /// Fetching it and checking it against its manifest.
    Downloading(Release),
    /// Replacing the installed files.
    Installing,
    /// Replaced; the new version runs from the next start.
    Installed(Applied),
    /// This round failed.
    Failed(UpdateError),
}

/// Something that must not be interrupted is running.
pub open spec fn busy(state: UpdateState) -> bool {
    state is Checking || state is Downloading || state is Installing
}

/// Asking the release server again is pointless or harmful: while busy, and
/// after an install (the running program is still the old one).
pub open spec fn blocks_check(state: UpdateState) -> bool {
    busy(state) || state is Installed
}

/// `list` joined with `sep` between its items.
pub open spec fn joined(list: Seq<Seq<char>>, sep: Seq<char>) -> Seq<char>
    decreases list.len(),
{
    if list.len() == 0 {
        Seq::empty()
    } else if list.len() == 1 {
        list[0]
    } else {
        joined(list.drop_last(), sep) + sep + list.last()
    }
}

/// The items of a `Vec<String>` as characters.
pub open spec fn texts(v: Vec<String>) -> Seq<Seq<char>> {
    v@.map_values(|s: String| s@)
}

/// ` (detail)`.
pub open spec fn in_parens(detail: Seq<char>) -> Seq<char> {
    seq![' ', '('] + detail + seq![')']
}

/// `: detail`.
pub open spec fn after_colon(detail: Seq<char>) -> Seq<char> {
    seq![':', ' '] + detail
}

/// ` — detail`.
pub open spec fn after_dash(detail: Seq<char>) -> Seq<char> {
    seq![' ', '—', ' '] + detail
}

/// What a failure says to the reader. The detail is kept where it changes
/// what the reader does next (why the server was unreachable, which status,
/// which tag, which path, which files are already new) and dropped where it
/// would not.
pub open spec fn error_text(e: UpdateError, t: Text) -> Seq<char> {
    match e {
        UpdateError::Unreachable(detail) => t.update_error_unreachable@ + in_parens(detail@),
        UpdateError::Rejected(status) => if status == 403 {
            t.update_error_rate_limited@
        } else if status == 404 {
            t.update_error_no_release@
        } else {
            t.update_error_rejected@ + in_parens(decimal(status as nat))
        },
        UpdateError::MalformedRelease(_) => t.update_error_malformed@,
        UpdateError::NoPackage { tag } => t.update_error_no_package@ + in_parens(tag@),
        UpdateError::TooLarge { .. } => t.update_error_too_large@,
        UpdateError::Storage { path, .. } => t.update_error_storage@ + after_colon(path@),
        UpdateError::BadArchive(_) => t.update_error_bad_archive@,
        UpdateError::Mismatch(_) => t.update_error_mismatch@,
        UpdateError::ReadOnlyInstall { directory } => t.update_error_read_only@ + after_colon(directory@),
        UpdateError::HalfApplied { already_new, program_restored, .. } => {
            let program = if program_restored {
                t.update_half_program_restored@
            } else {
                t.update_half_program_lost@
            };
            let head = t.update_error_half_applied@ + after_dash(program);
            if already_new@.len() == 0 {
                head
            } else {
                head + after_dash(t.update_half_already_new@ + after_colon(joined(texts(already_new), seq![',', ' '])))
            }
        },
    }
}

/// The sentence a step is shown with.
pub open spec fn state_text(state: UpdateState, t: Text) -> Seq<char> {
    match state {
        UpdateState::Idle => t.update_state_idle@,
        UpdateState::Checking => t.update_state_checking@,
        UpdateState::UpToDate => t.update_state_current@,
        UpdateState::Available(_) => t.update_state_available@,
        UpdateState::Downloading(_) => t.update_state_downloading@,
        UpdateState::Installing => t.update_state_installing@,
        UpdateState::Installed(_) => t.update_state_installed@,
        UpdateState::Failed(e) => error_text(e, t),
    }
}

/// The name of the version in hand: the release's tag before the install,
/// the version the install recorded after it.
pub open spec fn version_label(state: UpdateState) -> Option<Seq<char>> {
    match state {
        UpdateState::Available(r) => Some(r.tag@),
        UpdateState::Downloading(r) => Some(r.tag@),
        UpdateState::Installed(a) => Some(a.version@),
        _ => None,
    }
}

fn push_joined(out: &mut String, list: &Vec<String>, sep: &str)
    ensures
        final(out)@ == old(out)@ + joined(texts(*list), sep@),
{
    let ghost items = texts(*list);
    let mut i: usize = 0;
    while i < list.len()
        invariant
            i <= list@.len(),
            items == texts(*list),
            items.len() == list@.len(),
            out@ == old(out)@ + joined(items.take(i as int), sep@),
        decreases list.len() - i,
    {
        let ghost before = out@;
        if i > 0 {
            push_str(out, sep);
        }
        push_str(out, list[i].as_str());
        proof {
            let next = items.take(i + 1);
            assert(next.drop_last() =~= items.take(i as int));
            assert(next.last() == list@[i as int]@);
            if i == 0 {
                assert(next =~= seq![list@[0]@]);
                assert(joined(items.take(0), sep@) =~= Seq::<char>::empty());
                assert(out@ =~= old(out)@ + joined(next, sep@));
            } else {
                assert(out@ =~= old(out)@ + joined(next, sep@));
            }
        }
        i = i + 1;
    }
    assert(items.take(i as int) =~= items);
}

/// What a failure says to the reader, in the reader's language.
pub fn error_message(error: &UpdateError, text: &Text) -> (line: String)
    ensures
        line@ == error_text(*error, *text),
{
    let mut s = String::new();
    match error {
        UpdateError::Unreachable(detail) => {
            push_str(&mut s, text.update_error_unreachable);
            push_char(&mut s, ' ');
            push_char(&mut s, '(');
            push_str(&mut s, detail.as_str());
            push_char(&mut s, ')');
        },
        UpdateError::Rejected(status) => {
            if *status == 403 {
                push_str(&mut s, text.update_error_rate_limited);
            } else if *status == 404 {
                push_str(&mut s, text.update_error_no_release);
            } else {
                push_str(&mut s, text.update_error_rejected);
                push_char(&mut s, ' ');
                push_char(&mut s, '(');
                push_decimal(&mut s, *status as u128);
                push_char(&mut s, ')');
            }
        },
        UpdateError::MalformedRelease(_) => {
            push_str(&mut s, text.update_error_malformed);
        },
        UpdateError::NoPackage { tag } => {
            push_str(&mut s, text.update_error_no_package);
            push_char(&mut s, ' ');
            push_char(&mut s, '(');
            push_str(&mut s, tag.as_str());
            push_char(&mut s, ')');
        },
        UpdateError::TooLarge { .. } => {
            push_str(&mut s, text.update_error_too_large);
        },
        UpdateError::Storage { path, .. } => {
            push_str(&mut s, text.update_error_storage);
            push_char(&mut s, ':');
            push_char(&mut s, ' ');
            push_str(&mut s, path.as_str());
        },
        UpdateError::BadArchive(_) => {
            push_str(&mut s, text.update_error_bad_archive);
        },
        UpdateError::Mismatch(_) => {
            push_str(&mut s, text.update_error_mismatch);
        },
        UpdateError::ReadOnlyInstall { directory } => {
            push_str(&mut s, text.update_error_read_only);
            push_char(&mut s, ':');
            push_char(&mut s, ' ');
            push_str(&mut s, directory.as_str());
        },
        UpdateError::HalfApplied { already_new, program_restored, .. } => {
            push_str(&mut s, text.update_error_half_applied);
            push_char(&mut s, ' ');
            push_char(&mut s, '—');
            push_char(&mut s, ' ');
            if *program_restored {
                push_str(&mut s, text.update_half_program_restored);
            } else {
                push_str(&mut s, text.update_half_program_lost);
            }
            if already_new.len() > 0 {
                push_char(&mut s, ' ');
                push_char(&mut s, '—');
                push_char(&mut s, ' ');
                push_str(&mut s, text.update_half_already_new);
                push_char(&mut s, ':');
                push_char(&mut s, ' ');
                proof {
                    reveal_strlit(", ");
                    assert(", "@ =~= seq![',', ' ']);
                }
                push_joined(&mut s, already_new, ", ");
            }
        },
    }
    assert(s@ =~= error_text(*error, *text));
    s
}

impl Release {
    /// An identical copy.
    pub fn duplicate(&self) -> (out: Release)
        ensures
            out == *self,
    {
        Release {
            tag: self.tag.clone(),
            version: self.version.clone(),
            html_url: self.html_url.clone(),
            asset_name: self.asset_name.clone(),
            asset_url: self.asset_url.clone(),
            asset_size: self.asset_size,
        }
    }
}

impl Default for UpdateState {
    /// Not asked yet.
    fn default() -> (state: Self)
        ensures
            state is Idle,
    {
        UpdateState::Idle
    }
}

impl UpdateState {
    /// Not asked yet.
    pub fn new() -> (state: Self)
        ensures
            state is Idle,
    {
        UpdateState::Idle
    }

    /// Something that must not be interrupted is running.
    pub fn is_busy(&self) -> (b: bool)
        ensures
            b == busy(*self),
    {
        matches!(self, UpdateState::Checking | UpdateState::Downloading(_) | UpdateState::Installing)
    }

    /// Asking again is not allowed now.
    pub fn blocks_a_new_check(&self) -> (b: bool)
        ensures
            b == blocks_check(*self),
    {
        self.is_busy() || matches!(self, UpdateState::Installed(_))
    }

    /// A newer version can be installed (and has not started installing).
    pub fn offers_an_install(&self) -> (b: bool)
        ensures
            b == (*self is Available),
    {
        matches!(self, UpdateState::Available(_))
    }

    /// After an install, starting a new watch must wait for a restart: the
    /// new native libraries are on disk, the old program is still running.
    pub fn blocks_a_new_watch(&self) -> (b: bool)
        ensures
            b == (*self is Installed),
    {
        matches!(self, UpdateState::Installed(_))
    }

    /// This round is bad news.
    pub fn is_failure(&self) -> (b: bool)
        ensures
            b == (*self is Failed),
    {
        matches!(self, UpdateState::Failed(_))
    }

    /// Good news worth emphasising: a newer version, or an install waiting
    /// for a restart.
    pub fn is_good_news(&self) -> (b: bool)
        ensures
            b == (*self is Available || *self is Installed),
    {
        matches!(self, UpdateState::Available(_) | UpdateState::Installed(_))
    }

    /// What the version in hand is called, if there is one.
    pub fn new_version_label(&self) -> (label: Option<String>)
        ensures
            match version_label(*self) {
                Some(v) => label.is_some() && label.unwrap()@ == v,
                None => label.is_none(),
            },
    {
        match self {
            UpdateState::Available(release) => Some(release.tag.clone()),
            UpdateState::Downloading(release) => Some(release.tag.clone()),
            UpdateState::Installed(applied) => Some(applied.version.clone()),
            _ => None,
        }
    }

    /// The step's sentence. Every step has one, including "not asked yet".
    pub fn line(&self, text: &Text) -> (line: String)
        ensures
            line@ == state_text(*self, *text),
    {
        let mut s = String::new();
        match self {
            UpdateState::Idle => push_str(&mut s, text.update_state_idle),
            UpdateState::Checking => push_str(&mut s, text.update_state_checking),
            UpdateState::UpToDate => push_str(&mut s, text.update_state_current),
            UpdateState::Available(_) => push_str(&mut s, text.update_state_available),
            UpdateState::Downloading(_) => push_str(&mut s, text.update_state_downloading),
            UpdateState::Installing => push_str(&mut s, text.update_state_installing),
            UpdateState::Installed(_) => push_str(&mut s, text.update_state_installed),
            UpdateState::Failed(error) => {
                return error_message(error, text);
            },
        }
        assert(s@ =~= state_text(*self, *text));
        s
    }
}

/// Every failure says something, in every language whose sentences all say
/// something: its message is not blank even after trimming.
pub proof fn law_every_failure_says_something(e: UpdateError, t: Text)
    requires
        t.wf(),
    ensures
        error_text(e, t).len() > 0,
        crate::numbers::trimmed(error_text(e, t)).len() > 0,
{
    lemma_error_text_starts_with_ink(e, t);
    crate::numbers::lemma_trimmed_keeps(error_text(e, t), 0);
}

/// A failure's sentence starts with its catalogue sentence.
proof fn lemma_error_text_starts_with_ink(e: UpdateError, t: Text)
    requires
        t.wf(),
    ensures
        error_text(e, t).len() > 0,
        !crate::numbers::is_ws(error_text(e, t)[0]),
{
    match e {
        UpdateError::Unreachable(detail) => {
            assert((t.update_error_unreachable@ + in_parens(detail@))[0] == t.update_error_unreachable@[0]);
        },
        UpdateError::Rejected(status) => {
            if status != 403 && status != 404 {
                assert((t.update_error_rejected@ + in_parens(decimal(status as nat)))[0] == t.update_error_rejected@[0]);
            }
        },
        UpdateError::NoPackage { tag } => {
            assert((t.update_error_no_package@ + in_parens(tag@))[0] == t.update_error_no_package@[0]);
        },
        UpdateError::Storage { path, .. } => {
            assert((t.update_error_storage@ + after_colon(path@))[0] == t.update_error_storage@[0]);
        },
        UpdateError::ReadOnlyInstall { directory } => {
            assert((t.update_error_read_only@ + after_colon(directory@))[0] == t.update_error_read_only@[0]);
        },
        UpdateError::HalfApplied { already_new, program_restored, .. } => {
            let program = if program_restored {
                t.update_half_program_restored@
            } else {
                t.update_half_program_lost@
            };
            let head = t.update_error_half_applied@ + after_dash(program);
            assert(head[0] == t.update_error_half_applied@[0]);
            if already_new@.len() > 0 {
                let tail = after_dash(t.update_half_already_new@ + after_colon(joined(texts(already_new), seq![',', ' '])));
                assert((head + tail)[0] == head[0]);
            }
        },
        _ => {},
    }
}

/// Every step says something, including the one before the first answer:
/// its line is not blank even after trimming.
pub proof fn law_every_step_says_something(state: UpdateState, t: Text)
    requires
        t.wf(),
    ensures
        state_text(state, t).len() > 0,
        crate::numbers::trimmed(state_text(state, t)).len() > 0,
{
    if let UpdateState::Failed(e) = state {
        lemma_error_text_starts_with_ink(e, t);
    }
    crate::numbers::lemma_trimmed_keeps(state_text(state, t), 0);
}

/// `part` occurs in `whole` at some position.
pub open spec fn occurs_in(part: Seq<char>, whole: Seq<char>) -> bool {
    exists|k: int| 0 <= k && k + part.len() <= whole.len() && #[trigger] whole.subrange(k, k + part.len()) == part
}

proof fn lemma_occurs_at(part: Seq<char>, whole: Seq<char>, k: int)
    requires
        0 <= k,
        k + part.len() <= whole.len(),
        whole.subrange(k, k + part.len()) == part,
    ensures
        occurs_in(part, whole),
{
}

proof fn lemma_occurs_in_concat(part: Seq<char>, a: Seq<char>, b: Seq<char>)
    ensures
        occurs_in(part, a) ==> occurs_in(part, a + b),
        occurs_in(part, b) ==> occurs_in(part, a + b),
{
    if occurs_in(part, a) {
        let k = choose|k: int| 0 <= k && k + part.len() <= a.len() && #[trigger] a.subrange(k, k + part.len()) == part;
        assert((a + b).subrange(k, k + part.len()) =~= part);
        lemma_occurs_at(part, a + b, k);
    }
    if occurs_in(part, b) {
        let k = choose|k: int| 0 <= k && k + part.len() <= b.len() && #[trigger] b.subrange(k, k + part.len()) == part;
        assert((a + b).subrange(a.len() + k, a.len() + k + part.len()) =~= part);
        lemma_occurs_at(part, a + b, a.len() + k);
    }
}

proof fn lemma_joined_holds_every_item(list: Seq<Seq<char>>, sep: Seq<char>, i: int)
    requires
        0 <= i < list.len(),
    ensures
        occurs_in(list[i], joined(list, sep)),
    decreases list.len(),
{
    if list.len() == 1 {
        assert(joined(list, sep).subrange(0, list[0].len() as int) =~= list[0]);
        lemma_occurs_at(list[0], joined(list, sep), 0);
    } else if i == list.len() - 1 {
        assert(list.last().subrange(0, list[i].len() as int) =~= list[i]);
        lemma_occurs_at(list[i], list.last(), 0);
        lemma_occurs_in_concat(list[i], joined(list.drop_last(), sep) + sep, list.last());
    } else {
        assert(list.drop_last()[i] == list[i]);
        lemma_joined_holds_every_item(list.drop_last(), sep, i);
        lemma_occurs_in_concat(list[i], joined(list.drop_last(), sep), sep);
        lemma_occurs_in_concat(list[i], joined(list.drop_last(), sep) + sep, list.last());
    }
}

/// A half-applied update names every file that is already new.
pub proof fn law_half_applied_names_the_new_files(
    reason: String,
    already_new: Vec<String>,
    program_restored: bool,
    t: Text,
    i: int,
)
    requires
        0 <= i < already_new@.len(),
    ensures
        occurs_in(
            already_new@[i]@,
            error_text(UpdateError::HalfApplied { reason, already_new, program_restored }, t),
        ),
{
    let list = texts(already_new);
    lemma_joined_holds_every_item(list, seq![',', ' '], i);
    let program = if program_restored {
        t.update_half_program_restored@
    } else {
        t.update_half_program_lost@
    };
    let head = t.update_error_half_applied@ + after_dash(program);
    let j = joined(list, seq![',', ' ']);
    lemma_occurs_in_concat(list[i], seq![':', ' '], j);
    lemma_occurs_in_concat(list[i], t.update_half_already_new@, after_colon(j));
    lemma_occurs_in_concat(list[i], seq![' ', '—', ' '], t.update_half_already_new@ + after_colon(j));
    lemma_occurs_in_concat(list[i], head, after_dash(t.update_half_already_new@ + after_colon(j)));
}


/// A span of time, as `Duration` holds it: whole seconds and the nanoseconds
/// past them.
#[derive(Clone, Copy, Debug, PartialEq, Eq, Structural)]
pub struct Elapsed {
    pub secs: u64,
    pub nanos: u32,
}

impl Elapsed {
    /// Whole seconds.
    pub fn from_secs(secs: u64) -> (e: Elapsed)
        ensures
            e.secs == secs,
            e.nanos == 0,
    {
        Elapsed { secs, nanos: 0 }
    }
}

/// The shortest wait between two manual checks, in seconds. The release
/// server allows 60 anonymous requests an hour; without a wait a quick
/// hand spends the hour's allowance in a minute.
pub const MANUAL_CHECK_COOLDOWN_SECS: u64 = 60;

/// The shortest wait between two manual checks.
pub fn manual_check_cooldown() -> (e: Elapsed)
    ensures
        e.secs == MANUAL_CHECK_COOLDOWN_SECS,
        e.nanos == 0,
{
    Elapsed::from_secs(MANUAL_CHECK_COOLDOWN_SECS)
}

/// Whether `e` is at least the cooldown. Spans order by seconds first and
/// nanoseconds second, and the cooldown is whole seconds, so that is the
/// seconds reaching it.
pub open spec fn cooled_down(e: Elapsed) -> bool {
    e.secs >= MANUAL_CHECK_COOLDOWN_SECS
}

/// Whether the release server may be asked again: never while something
/// is running or after an install, and otherwise only once the cooldown has
/// passed since the last check (the very first check is never held back).
pub open spec fn may_check(state: UpdateState, since_last: Option<Elapsed>) -> bool {
    !blocks_check(state) && match since_last {
        Some(e) => cooled_down(e),
        None => true,
    }
}

/// Whether the release server may be asked again now.
pub fn may_check_again(state: &UpdateState, since_last: Option<Elapsed>) -> (allowed: bool)
    ensures
        allowed == may_check(*state, since_last),
{
    if state.blocks_a_new_check() {
        return false;
    }
    match since_last {
        Some(elapsed) => elapsed.secs >= MANUAL_CHECK_COOLDOWN_SECS,
        None => true,
    }
}

/// A failure is never final: once the cooldown has passed, asking again is
/// allowed.
pub proof fn law_a_failure_can_be_retried(e: UpdateError, since_last: Elapsed)
    requires
        since_last.secs >= MANUAL_CHECK_COOLDOWN_SECS,
    ensures
        may_check(UpdateState::Failed(e), Some(since_last)),
{
}

/// A check in flight, a download, a replacement and a finished install all
/// refuse another check, however long ago the last one was.
pub proof fn law_busy_or_installed_never_checks(state: UpdateState, since_last: Option<Elapsed>)
    requires
        busy(state) || state is Installed,
    ensures
        !may_check(state, since_last),
{
}

/// The update as the interface drives it: the step it is at, which round
/// of answers is still wanted, and whether the once-per-start check has run.
pub struct UpdateSession {
    pub state: UpdateState,
    /// Bumped whenever a new round starts; an answer carrying an older
    /// number belongs to a round nobody is waiting for.
    pub generation: u64,
    /// The automatic check at start-up has been kicked.
    pub checked: bool,
}

/// The answer to a check: a newer release, nothing newer, or a failure.
pub open spec fn answered_state(answer: Result<Option<Release>, UpdateError>) -> UpdateState {
    match answer {
        Ok(Some(release)) => UpdateState::Available(release),
        Ok(None) => UpdateState::UpToDate,
        Err(e) => UpdateState::Failed(e),
    }
}

/// The log line a check's answer is announced with.
pub open spec fn answer_text(answer: Result<Option<Release>, UpdateError>, t: Text) -> Seq<char> {
    match answer {
        Ok(Some(release)) => t.update_badge@ + seq![' '] + release.tag@,
        Ok(None) => t.update_state_current@,
        Err(e) => error_text(e, t),
    }
}

/// The log line a check's answer is announced with.
pub fn answer_line(answer: &Result<Option<Release>, UpdateError>, text: &Text) -> (line: String)
    ensures
        line@ == answer_text(*answer, *text),
{
    match answer {
        Ok(Some(release)) => {
            let mut s = String::new();
            push_str(&mut s, text.update_badge);
            push_char(&mut s, ' ');
            push_str(&mut s, release.tag.as_str());
            assert(s@ =~= answer_text(*answer, *text));
            s
        },
        Ok(None) => {
            let mut s = String::new();
            push_str(&mut s, text.update_state_current);
            assert(s@ =~= answer_text(*answer, *text));
            s
        },
        Err(error) => error_message(error, text),
    }
}

/// An answer that lands says what the server said: nothing newer is "this
/// copy is the newest", a newer release is that release on offer, a failure
/// is that failure; no answer ever reads as "not asked yet" or as still
/// asking.
pub proof fn law_an_answer_is_never_read_as_unasked(answer: Result<Option<Release>, UpdateError>)
    ensures
        !(answered_state(answer) is Idle),
        !(answered_state(answer) is Checking),
        answer is Ok && answer->Ok_0 is None ==> answered_state(answer) is UpToDate,
        answer is Ok && answer->Ok_0 is Some ==> answered_state(answer) == UpdateState::Available(answer->Ok_0->Some_0),
        answer is Err ==> answered_state(answer) == UpdateState::Failed(answer->Err_0),
{
}

impl UpdateSession {
    /// Nothing asked yet.
    pub fn new() -> (session: Self)
        ensures
            session.state is Idle,
            session.generation == 0,
            !session.checked,
    {
        UpdateSession { state: UpdateState::Idle, generation: 0, checked: false }
    }

    /// Starts a round of checking: the state becomes `Checking` and every
    /// answer of earlier rounds is retired. Returns the round's number.
    pub fn begin_check(&mut self) -> (round: u64)
        ensures
            round == final(self).generation,
            final(self).generation == old(self).generation.wrapping_add(1),
            final(self).state is Checking,
            final(self).checked == old(self).checked,
    {
        self.generation = self.generation.wrapping_add(1);
        self.state = UpdateState::Checking;
        self.generation
    }

    /// The once-per-start automatic check: only the first kick starts a
    /// round.
    pub fn kick(&mut self) -> (round: Option<u64>)
        ensures
            old(self).checked ==> round.is_none() && *final(self) == *old(self),
            !old(self).checked ==> {
                &&& round == Some(final(self).generation)
                &&& final(self).checked
                &&& final(self).generation == old(self).generation.wrapping_add(1)
                &&& final(self).state is Checking
            },
    {
        if self.checked {
            return None;
        }
        self.checked = true;
        Some(self.begin_check())
    }

    /// The "check now" button: starts a round only when asking again is
    /// allowed.
    pub fn check_now(&mut self, since_last: Option<Elapsed>) -> (round: Option<u64>)
        ensures
            !may_check(old(self).state, since_last) ==> round.is_none() && *final(self) == *old(self),
            may_check(old(self).state, since_last) ==> {
                &&& round == Some(final(self).generation)
                &&& final(self).generation == old(self).generation.wrapping_add(1)
                &&& final(self).state is Checking
                &&& final(self).checked == old(self).checked
            },
    {
        if !may_check_again(&self.state, since_last) {
            return None;
        }
        Some(self.begin_check())
    }

    /// A check's answer arrives. It lands only if its round is still the
    /// current one; returns whether it landed.
    pub fn finish_check(&mut self, round: u64, answer: Result<Option<Release>, UpdateError>) -> (landed: bool)
        ensures
            landed == (round == old(self).generation),
            !landed ==> *final(self) == *old(self),
            landed ==> {
                &&& final(self).state == answered_state(answer)
                &&& final(self).generation == old(self).generation
                &&& final(self).checked == old(self).checked
            },
            landed ==> match answer {
                Ok(Some(release)) => final(self).state == UpdateState::Available(release),
                Ok(None) => final(self).state is UpToDate,
                Err(e) => final(self).state == UpdateState::Failed(e),
            },
            landed ==> !(final(self).state is Idle) && !(final(self).state is Checking),
    {
        if round != self.generation {
            return false;
        }
        self.state = match answer {
            Ok(Some(release)) => UpdateState::Available(release),
            Ok(None) => UpdateState::UpToDate,
            Err(error) => UpdateState::Failed(error),
        };
        true
    }

    /// The install button: only an available release can be installed. On
    /// success a new round starts, the state becomes `Downloading`, and the
    /// round's number and the release to fetch are handed back.
    pub fn start_install(&mut self) -> (started: Option<(u64, Release)>)
        ensures
            !(old(self).state is Available) ==> started.is_none() && *final(self) == *old(self),
            old(self).state is Available ==> {
                &&& started.is_some()
                &&& started.unwrap().0 == final(self).generation
                &&& final(self).generation == old(self).generation.wrapping_add(1)
                &&& started.unwrap().1 == old(self).state->Available_0
                &&& final(self).state == UpdateState::Downloading(old(self).state->Available_0)
                &&& final(self).checked == old(self).checked
            },
    {
        let release = match &self.state {
            UpdateState::Available(release) => release.duplicate(),
            _ => return None,
        };
        self.generation = self.generation.wrapping_add(1);
        self.state = UpdateState::Downloading(release.duplicate());
        Some((self.generation, release))
    }

    /// The package is fetched and checked; replacing begins if the round is
    /// still current. Returns whether the round is still current.
    pub fn package_staged(&mut self, round: u64) -> (current: bool)
        ensures
            current == (round == old(self).generation),
            !current ==> *final(self) == *old(self),
            current ==> {
                &&& final(self).state is Installing
                &&& final(self).generation == old(self).generation
                &&& final(self).checked == old(self).checked
            },
    {
        if round != self.generation {
            return false;
        }
        self.state = UpdateState::Installing;
        true
    }

    /// The files are replaced; lands if the round is still current.
    pub fn install_finished(&mut self, round: u64, applied: Applied) -> (landed: bool)
        ensures
            landed == (round == old(self).generation),
            !landed ==> *final(self) == *old(self),
            landed ==> {
                &&& final(self).state == UpdateState::Installed(applied)
                &&& final(self).generation == old(self).generation
                &&& final(self).checked == old(self).checked
            },
    {
        if round != self.generation {
            return false;
        }
        self.state = UpdateState::Installed(applied);
        true
    }

    /// A round failed; the failure lands if the round is still current.
    pub fn round_failed(&mut self, round: u64, error: UpdateError) -> (landed: bool)
        ensures
            landed == (round == old(self).generation),
            !landed ==> *final(self) == *old(self),
            landed ==> {
                &&& final(self).state == UpdateState::Failed(error)
                &&& final(self).generation == old(self).generation
                &&& final(self).checked == old(self).checked
            },
    {
        if round != self.generation {
            return false;
        }
        self.state = UpdateState::Failed(error);
        true
    }
}

/// Starting a round retires the round before it: the previous round's
/// number is never the current one afterwards.
pub proof fn law_a_new_round_retires_the_old_one(generation: u64)
    ensures
        generation.wrapping_add(1) != generation,
{
}

} // verus!
