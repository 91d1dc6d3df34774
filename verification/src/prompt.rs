//! The prompt that asks a session to prepare its own hand-off.

use crate::text;
use vstd::prelude::*;
use vstd::string::*;

verus! {

/// What the session is asked to do.
pub const INSTRUCTIONS: &'static str = "Prepare a concise prompt to continue this work in a fresh Codex session.\n\n\
     The current session reached the configured context-compaction threshold. \
     Do not continue implementation in this turn. Reply only with the prompt for the next \
     Codex session.\n\n\
     Include all important context, current status, checkpoints, files changed, blockers, \
     validation done, validation pending, and exact next steps. The next session will receive \
     your response as its initial user prompt, so make it self-contained and actionable.\n\n";

/// Stands above the session's metadata.
pub const METADATA_HEADING: &'static str = "Session metadata to include if useful:\n";

/// A session as a prompt describes it: every part in the form in which it is shown.
#[derive(Clone, Copy, Debug)]
pub struct SessionText<'a> {
    pub thread_id: Option<&'a str>,
    pub thread_name: Option<&'a str>,
    pub cwd: Option<&'a str>,
    pub rollout_path: Option<&'a str>,
}

/// The characters of a [`SessionText`].
pub struct SessionView {
    pub thread_id: Option<Seq<char>>,
    pub thread_name: Option<Seq<char>>,
    pub cwd: Option<Seq<char>>,
    pub rollout_path: Option<Seq<char>>,
}

impl<'a> View for SessionText<'a> {
    type V = SessionView;

    open spec fn view(&self) -> SessionView {
        SessionView {
            thread_id: text::optional_text(self.thread_id),
            thread_name: text::optional_text(self.thread_name),
            cwd: text::optional_text(self.cwd),
            rollout_path: text::optional_text(self.rollout_path),
        }
    }
}

/// One line of metadata, or nothing where there is no value.
pub open spec fn metadata_line(label: Seq<char>, value: Option<Seq<char>>) -> Seq<char> {
    match value {
        Some(value) => label + value + "\n"@,
        None => Seq::empty(),
    }
}

/// A thread's name as it is shown: trimmed, and not at all where it is blank.
pub open spec fn shown_name(name: Option<Seq<char>>) -> Option<Seq<char>> {
    match name {
        Some(name) => if text::is_blank(name) {
            None
        } else {
            Some(text::trimmed(name))
        },
        None => None,
    }
}

/// The line that reports the compactions; every prompt ends with it.
pub open spec fn compaction_line(compaction_count: u32, threshold: u32) -> Seq<char> {
    "- Context compactions observed: "@ + text::decimal(compaction_count as nat)
        + " of configured threshold "@ + text::decimal(threshold as nat) + "\n"@
}

/// The lines between the heading and the last line.
pub open spec fn session_lines(session: SessionView) -> Seq<char> {
    metadata_line("- Previous thread id: "@, session.thread_id) + metadata_line(
        "- Previous thread name: "@,
        shown_name(session.thread_name),
    ) + metadata_line("- Working directory: "@, session.cwd) + metadata_line(
        "- Previous rollout path: "@,
        session.rollout_path,
    )
}

/// The whole prompt.
pub open spec fn preparation_prompt(
    threshold: u32,
    session: SessionView,
    compaction_count: u32,
) -> Seq<char> {
    INSTRUCTIONS@ + METADATA_HEADING@ + session_lines(session) + compaction_line(
        compaction_count,
        threshold,
    )
}

/// Appends one line of metadata, or nothing where there is no value.
fn append_metadata_line(prompt: &mut String, label: &str, value: Option<&str>)
    ensures
        final(prompt)@ == old(prompt)@ + metadata_line(label@, text::optional_text(value)),
{
    if let Some(value) = value {
        prompt.append(label);
        prompt.append(value);
        prompt.append("\n");
    }
}

/// A thread's name as it is shown, if it is.
fn trimmed_name<'a>(name: Option<&'a str>) -> (shown: Option<&'a str>)
    ensures
        text::optional_text(shown) == shown_name(text::optional_text(name)),
{
    match name {
        Some(name) => {
            proof {
                text::law_trimmed(name@);
            }
            let name = name.trim();
            if name.is_empty() {
                None
            } else {
                Some(name)
            }
        },
        None => None,
    }
}

/// The prompt for a session whose parts are given as text.
pub fn render_preparation_prompt(
    threshold: u32,
    session: SessionText<'_>,
    compaction_count: u32,
) -> (prompt: String)
    ensures
        prompt@ == preparation_prompt(threshold, session@, compaction_count),
{
    let mut prompt = String::new();
    prompt.append(INSTRUCTIONS);
    prompt.append(METADATA_HEADING);
    append_metadata_line(&mut prompt, "- Previous thread id: ", session.thread_id);
    append_metadata_line(&mut prompt, "- Previous thread name: ", trimmed_name(session.thread_name));
    append_metadata_line(&mut prompt, "- Working directory: ", session.cwd);
    append_metadata_line(&mut prompt, "- Previous rollout path: ", session.rollout_path);
    prompt.append("- Context compactions observed: ");
    text::append_decimal(&mut prompt, compaction_count);
    prompt.append(" of configured threshold ");
    text::append_decimal(&mut prompt, threshold);
    prompt.append("\n");
    prompt
}

/// A session is seen with all its parts, each in full.
pub proof fn law_session_view(session: SessionText<'_>)
    ensures
        session.thread_id matches Some(id) ==> session@.thread_id == Some(id@),
        session.thread_id is None ==> session@.thread_id is None,
        session.thread_name matches Some(name) ==> session@.thread_name == Some(name@),
        session.thread_name is None ==> session@.thread_name is None,
        session.cwd matches Some(path) ==> session@.cwd == Some(path@),
        session.cwd is None ==> session@.cwd is None,
        session.rollout_path matches Some(path) ==> session@.rollout_path == Some(path@),
        session.rollout_path is None ==> session@.rollout_path is None,
{
}

/// Every prompt begins with the instructions and the heading, and ends with the line that
/// reports the compactions, whatever the numbers are and whatever is known of the session.
pub proof fn law_prompt_frame(threshold: u32, session: SessionView, compaction_count: u32)
    ensures
        (INSTRUCTIONS@ + METADATA_HEADING@).is_prefix_of(
            preparation_prompt(threshold, session, compaction_count),
        ),
        ("- Context compactions observed: "@ + text::decimal(compaction_count as nat)
            + " of configured threshold "@ + text::decimal(threshold as nat)
            + "\n"@).is_suffix_of(preparation_prompt(threshold, session, compaction_count)),
{
    let prompt = preparation_prompt(threshold, session, compaction_count);
    let head = INSTRUCTIONS@ + METADATA_HEADING@;
    let line = "- Context compactions observed: "@ + text::decimal(compaction_count as nat)
        + " of configured threshold "@ + text::decimal(threshold as nat) + "\n"@;
    assert(prompt.subrange(0, head.len() as int) =~= head);
    assert(prompt.subrange(prompt.len() - line.len(), prompt.len() as int) =~= line);
}

/// Of a session of which nothing is known the prompt shows nothing: the line with the
/// compactions follows the heading.
pub proof fn law_prompt_unknown_session(threshold: u32, compaction_count: u32)
    ensures
        preparation_prompt(
            threshold,
            SessionView { thread_id: None, thread_name: None, cwd: None, rollout_path: None },
            compaction_count,
        ) == INSTRUCTIONS@ + METADATA_HEADING@ + ("- Context compactions observed: "@
            + text::decimal(compaction_count as nat) + " of configured threshold "@
            + text::decimal(threshold as nat) + "\n"@),
{
    let unknown = SessionView {
        thread_id: None,
        thread_name: None,
        cwd: None,
        rollout_path: None,
    };
    assert(session_lines(unknown) =~= Seq::empty());
    assert(preparation_prompt(threshold, unknown, compaction_count) =~= INSTRUCTIONS@
        + METADATA_HEADING@ + compaction_line(compaction_count, threshold));
}

/// A known thread id adds one line, in full and directly below the heading, and changes nothing
/// else, whatever the other parts are.
pub proof fn law_prompt_thread_id(
    threshold: u32,
    session: SessionView,
    id: Seq<char>,
    compaction_count: u32,
)
    ensures
        ({
            let head = INSTRUCTIONS@ + METADATA_HEADING@;
            let without = preparation_prompt(
                threshold,
                SessionView { thread_id: None, ..session },
                compaction_count,
            );
            preparation_prompt(
                threshold,
                SessionView { thread_id: Some(id), ..session },
                compaction_count,
            ) == head + ("- Previous thread id: "@ + id + "\n"@) + without.skip(head.len() as int)
        }),
{
    let head = INSTRUCTIONS@ + METADATA_HEADING@;
    let without = preparation_prompt(
        threshold,
        SessionView { thread_id: None, ..session },
        compaction_count,
    );
    assert(preparation_prompt(
        threshold,
        SessionView { thread_id: Some(id), ..session },
        compaction_count,
    ) =~= head + ("- Previous thread id: "@ + id + "\n"@) + without.skip(head.len() as int));
}

/// A known rollout path adds one line, in full and directly above the line with the compactions,
/// and changes nothing else, whatever the other parts are.
pub proof fn law_prompt_rollout_path(
    threshold: u32,
    session: SessionView,
    path: Seq<char>,
    compaction_count: u32,
)
    ensures
        ({
            let tail = "- Context compactions observed: "@ + text::decimal(compaction_count as nat)
                + " of configured threshold "@ + text::decimal(threshold as nat) + "\n"@;
            let without = preparation_prompt(
                threshold,
                SessionView { rollout_path: None, ..session },
                compaction_count,
            );
            preparation_prompt(
                threshold,
                SessionView { rollout_path: Some(path), ..session },
                compaction_count,
            ) == without.take(without.len() - tail.len()) + ("- Previous rollout path: "@ + path
                + "\n"@) + tail
        }),
{
    let tail = "- Context compactions observed: "@ + text::decimal(compaction_count as nat)
        + " of configured threshold "@ + text::decimal(threshold as nat) + "\n"@;
    let without = preparation_prompt(
        threshold,
        SessionView { rollout_path: None, ..session },
        compaction_count,
    );
    assert(preparation_prompt(
        threshold,
        SessionView { rollout_path: Some(path), ..session },
        compaction_count,
    ) =~= without.take(without.len() - tail.len()) + ("- Previous rollout path: "@ + path
        + "\n"@) + tail);
}

/// A known working directory adds one line, in full and below those of the thread, and changes
/// nothing else: without a rollout path it stands directly above the line with the compactions.
pub proof fn law_prompt_cwd(
    threshold: u32,
    session: SessionView,
    path: Seq<char>,
    compaction_count: u32,
)
    requires
        session.rollout_path is None,
    ensures
        ({
            let tail = "- Context compactions observed: "@ + text::decimal(compaction_count as nat)
                + " of configured threshold "@ + text::decimal(threshold as nat) + "\n"@;
            let without = preparation_prompt(
                threshold,
                SessionView { cwd: None, ..session },
                compaction_count,
            );
            preparation_prompt(
                threshold,
                SessionView { cwd: Some(path), ..session },
                compaction_count,
            ) == without.take(without.len() - tail.len()) + ("- Working directory: "@ + path
                + "\n"@) + tail
        }),
{
    let tail = "- Context compactions observed: "@ + text::decimal(compaction_count as nat)
        + " of configured threshold "@ + text::decimal(threshold as nat) + "\n"@;
    let without = preparation_prompt(
        threshold,
        SessionView { cwd: None, ..session },
        compaction_count,
    );
    assert(preparation_prompt(
        threshold,
        SessionView { cwd: Some(path), ..session },
        compaction_count,
    ) =~= without.take(without.len() - tail.len()) + ("- Working directory: "@ + path + "\n"@)
        + tail);
}

/// A thread name that holds anything but white space adds one line with the trimmed name, of any
/// length, and changes nothing else: without paths it stands directly above the line with the
/// compactions.
pub proof fn law_prompt_thread_name(
    threshold: u32,
    session: SessionView,
    name: Seq<char>,
    compaction_count: u32,
)
    requires
        session.cwd is None,
        session.rollout_path is None,
        exists|i: int| 0 <= i < name.len() && !text::is_white_space(#[trigger] name[i]),
    ensures
        ({
            let tail = "- Context compactions observed: "@ + text::decimal(compaction_count as nat)
                + " of configured threshold "@ + text::decimal(threshold as nat) + "\n"@;
            let without = preparation_prompt(
                threshold,
                SessionView { thread_name: None, ..session },
                compaction_count,
            );
            preparation_prompt(
                threshold,
                SessionView { thread_name: Some(name), ..session },
                compaction_count,
            ) == without.take(without.len() - tail.len()) + ("- Previous thread name: "@
                + text::trimmed(name) + "\n"@) + tail
        }),
{
    let tail = "- Context compactions observed: "@ + text::decimal(compaction_count as nat)
        + " of configured threshold "@ + text::decimal(threshold as nat) + "\n"@;
    let without = preparation_prompt(
        threshold,
        SessionView { thread_name: None, ..session },
        compaction_count,
    );
    assert(preparation_prompt(
        threshold,
        SessionView { thread_name: Some(name), ..session },
        compaction_count,
    ) =~= without.take(without.len() - tail.len()) + ("- Previous thread name: "@
        + text::trimmed(name) + "\n"@) + tail);
}

proof fn lemma_prompt_parts(
    threshold: u32,
    session: SessionView,
    compaction_count: u32,
    before: Seq<char>,
    line: Seq<char>,
    after: Seq<char>,
)
    requires
        before + line + after == session_lines(session),
    ensures
        exists|above: Seq<char>, below: Seq<char>|
            preparation_prompt(threshold, session, compaction_count) == #[trigger] (above + line
                + below),
{
    let above = INSTRUCTIONS@ + METADATA_HEADING@ + before;
    let below = after + compaction_line(compaction_count, threshold);
    assert(preparation_prompt(threshold, session, compaction_count) =~= above + line + below);
}

/// Whatever is known of a session is shown in full, each part independently of all others: the
/// thread id, the trimmed name unless it is blank, the working directory and the rollout path.
pub proof fn law_prompt_shows(threshold: u32, session: SessionView, compaction_count: u32)
    ensures
        session.thread_id matches Some(id) ==> exists|above: Seq<char>, below: Seq<char>|
            preparation_prompt(threshold, session, compaction_count) == #[trigger] (above + (
            "- Previous thread id: "@ + id + "\n"@) + below),
        session.thread_name matches Some(name) ==> (exists|i: int|
            0 <= i < name.len() && !text::is_white_space(#[trigger] name[i])) ==> exists|
            above: Seq<char>,
            below: Seq<char>,
        |
            preparation_prompt(threshold, session, compaction_count) == #[trigger] (above + (
            "- Previous thread name: "@ + text::trimmed(name) + "\n"@) + below),
        session.cwd matches Some(path) ==> exists|above: Seq<char>, below: Seq<char>|
            preparation_prompt(threshold, session, compaction_count) == #[trigger] (above + (
            "- Working directory: "@ + path + "\n"@) + below),
        session.rollout_path matches Some(path) ==> exists|above: Seq<char>, below: Seq<char>|
            preparation_prompt(threshold, session, compaction_count) == #[trigger] (above + (
            "- Previous rollout path: "@ + path + "\n"@) + below),
{
    let id = metadata_line("- Previous thread id: "@, session.thread_id);
    let name = metadata_line("- Previous thread name: "@, shown_name(session.thread_name));
    let cwd = metadata_line("- Working directory: "@, session.cwd);
    let rollout_path = metadata_line("- Previous rollout path: "@, session.rollout_path);
    let lines = session_lines(session);
    assert(Seq::<char>::empty() + id + (name + cwd + rollout_path) =~= lines);
    assert(id + name + (cwd + rollout_path) =~= lines);
    assert((id + name) + cwd + rollout_path =~= lines);
    assert((id + name + cwd) + rollout_path + Seq::<char>::empty() =~= lines);
    lemma_prompt_parts(
        threshold,
        session,
        compaction_count,
        Seq::empty(),
        id,
        name + cwd + rollout_path,
    );
    lemma_prompt_parts(threshold, session, compaction_count, id, name, cwd + rollout_path);
    lemma_prompt_parts(threshold, session, compaction_count, id + name, cwd, rollout_path);
    lemma_prompt_parts(
        threshold,
        session,
        compaction_count,
        id + name + cwd,
        rollout_path,
        Seq::empty(),
    );
}

/// A blank thread name is treated as none, and white space around a name does not show.
pub proof fn law_prompt_name(
    threshold: u32,
    session: SessionView,
    name: Seq<char>,
    compaction_count: u32,
)
    ensures
        (forall|i: int| 0 <= i < name.len() ==> text::is_white_space(#[trigger] name[i]))
            ==> preparation_prompt(
            threshold,
            SessionView { thread_name: Some(name), ..session },
            compaction_count,
        ) == preparation_prompt(
            threshold,
            SessionView { thread_name: None, ..session },
            compaction_count,
        ),
        preparation_prompt(
            threshold,
            SessionView { thread_name: Some(name), ..session },
            compaction_count,
        ) == preparation_prompt(
            threshold,
            SessionView { thread_name: Some(text::trimmed(name)), ..session },
            compaction_count,
        ),
{
    text::law_trimmed(name);
    text::law_trimmed(text::trimmed(name));
    text::law_trimmed_twice(name);
}

} // verus!
