//! What is settled before anything is downloaded: that the tools are there,
//! and that there is an address and it looks right.

use vstd::prelude::*;
use crate::error::{outcome_view, RunError, RunErrorView};
use crate::process::{ExitStatus, Invocation, InvocationView};

verus! {

/// The tools that a run needs, in the order in which they are probed: the
/// downloader, the player, and the visualizer where one is wanted.
pub open spec fn required_tools(enable_companion: bool) -> Seq<Seq<char>> {
    if enable_companion {
        seq!["yt-dlp"@, "mpv"@, "cava"@]
    } else {
        seq!["yt-dlp"@, "mpv"@]
    }
}

/// The command line that asks whether `tool` is installed.
pub open spec fn probe_command(tool: Seq<char>) -> InvocationView {
    InvocationView { program: "which"@, args: seq![tool] }
}

/// A tool is there when its probe ran and ended with exit code zero. A probe
/// that could not be run (`None`) counts as a missing tool.
pub open spec fn tool_found(probe: Option<ExitStatus>) -> bool {
    probe matches Some(status) && status.succeeded()
}

/// What a probe of `tool` means for the run.
pub open spec fn probe_outcome(tool: Seq<char>, probe: Option<ExitStatus>) -> Result<
    (),
    RunErrorView,
> {
    if tool_found(probe) {
        Ok(())
    } else {
        Err(RunErrorView::DependencyMissing(tool))
    }
}

/// Lists the tools that a run needs.
pub fn required_tool_list(enable_companion: bool) -> (tools: Vec<String>)
    ensures
        tools.deep_view() == required_tools(enable_companion),
{
    let mut tools: Vec<String> = Vec::new();
    tools.push("yt-dlp".to_owned());
    tools.push("mpv".to_owned());
    if enable_companion {
        tools.push("cava".to_owned());
    }
    assert(tools.deep_view() =~= required_tools(enable_companion));
    tools
}

/// Builds the command line that asks whether `tool` is installed.
pub fn probe_invocation(tool: &str) -> (invocation: Invocation)
    ensures
        invocation@ == probe_command(tool@),
{
    let mut args: Vec<String> = Vec::new();
    args.push(tool.to_owned());
    assert(args.deep_view() =~= seq![tool@]);
    Invocation { program: "which".to_owned(), args }
}

/// Reads the probe of one tool.
pub fn was_found(probe: Option<ExitStatus>) -> (found: bool)
    ensures
        found == tool_found(probe),
{
    match probe {
        Some(status) => status.success(),
        None => false,
    }
}

/// Reads the probe of `tool`: a missing tool is an error that names it.
pub fn check_probe(tool: &str, probe: Option<ExitStatus>) -> (outcome: Result<(), RunError>)
    ensures
        outcome_view(outcome) == probe_outcome(tool@, probe),
{
    if was_found(probe) {
        Ok(())
    } else {
        Err(RunError::DependencyMissing(tool.to_owned()))
    }
}

/// Whether `c` is white space, as `char::is_whitespace` of the standard
/// library decides it: the characters with the Unicode property White_Space.
pub uninterp spec fn white_space(c: char) -> bool;

/// The number of white space characters at the front of `text`.
pub open spec fn leading_space(text: Seq<char>) -> int
    decreases text.len(),
{
    if text.len() == 0 || !white_space(text[0]) {
        0
    } else {
        1 + leading_space(text.drop_first())
    }
}

/// The number of white space characters at the back of `text`.
pub open spec fn trailing_space(text: Seq<char>) -> int
    decreases text.len(),
{
    if text.len() == 0 || !white_space(text.last()) {
        0
    } else {
        1 + trailing_space(text.drop_last())
    }
}

/// `text` without the white space at its two ends. A text of white space
/// only becomes empty.
pub open spec fn trimmed(text: Seq<char>) -> Seq<char> {
    if leading_space(text) == text.len() {
        Seq::empty()
    } else {
        text.subrange(leading_space(text), text.len() - trailing_space(text))
    }
}

/// `str::trim` of the standard library: the result is the line without its
/// leading and trailing white space, where white space is what
/// `char::is_whitespace` says it is ([`white_space`]). A result that is not
/// empty therefore neither starts nor ends with white space.
#[verifier::external_body]
fn trim<'a>(line: &'a str) -> (text: &'a str)
    ensures
        text@ == trimmed(line@),
        text@.len() > 0 ==> !white_space(text@[0]) && !white_space(text@.last()),
{
    line.trim()
}

proof fn lemma_leading_space(text: Seq<char>)
    ensures
        0 <= leading_space(text) <= text.len(),
        forall|i: int| 0 <= i < leading_space(text) ==> white_space(#[trigger] text[i]),
        leading_space(text) < text.len() ==> !white_space(text[leading_space(text)]),
    decreases text.len(),
{
    if text.len() == 0 || !white_space(text[0]) {
    } else {
        let rest = text.drop_first();
        lemma_leading_space(rest);
        assert forall|i: int| 0 <= i < leading_space(text) implies white_space(
            #[trigger] text[i],
        ) by {
            if i > 0 {
                assert(text[i] == rest[i - 1]);
            }
        }
        if leading_space(text) < text.len() {
            assert(text[leading_space(text)] == rest[leading_space(rest)]);
        }
    }
}

proof fn lemma_trailing_space(text: Seq<char>)
    ensures
        0 <= trailing_space(text) <= text.len(),
        forall|i: int|
            text.len() - trailing_space(text) <= i < text.len() ==> white_space(#[trigger] text[i]),
        trailing_space(text) < text.len() ==> !white_space(
            text[text.len() - trailing_space(text) - 1],
        ),
    decreases text.len(),
{
    if text.len() == 0 || !white_space(text.last()) {
    } else {
        let rest = text.drop_last();
        lemma_trailing_space(rest);
        assert forall|i: int| text.len() - trailing_space(text) <= i < text.len() implies white_space(
            #[trigger] text[i],
        ) by {
            if i < text.len() - 1 {
                assert(text[i] == rest[i]);
            }
        }
        if trailing_space(text) < text.len() {
            assert(text[text.len() - trailing_space(text) - 1] == rest[rest.len() - trailing_space(
                rest,
            ) - 1]);
        }
    }
}

/// Trimming leaves a part of the text that neither starts nor ends with
/// white space, and drops white space only. Nothing is left exactly when the
/// text holds nothing but white space.
pub proof fn law_trimmed_text(text: Seq<char>)
    ensures
        leading_space(text) >= 0,
        trailing_space(text) >= 0,
        trimmed(text).len() > 0 ==> {
            &&& leading_space(text) + trimmed(text).len() + trailing_space(text) == text.len()
            &&& trimmed(text) == text.subrange(
                leading_space(text),
                text.len() - trailing_space(text),
            )
            &&& !white_space(trimmed(text)[0])
            &&& !white_space(trimmed(text).last())
        },
        forall|i: int| 0 <= i < leading_space(text) ==> white_space(#[trigger] text[i]),
        forall|i: int|
            text.len() - trailing_space(text) <= i < text.len() ==> white_space(#[trigger] text[i]),
        trimmed(text).len() == 0 <==> forall|i: int|
            0 <= i < text.len() ==> white_space(#[trigger] text[i]),
{
    lemma_leading_space(text);
    lemma_trailing_space(text);
    let front = leading_space(text);
    let back = trailing_space(text);
    if front < text.len() {
        assert(!white_space(text[front]));
        assert(front < text.len() - back);
        assert(trimmed(text)[0] == text[front]);
        assert(trimmed(text).last() == text[text.len() - back - 1]);
    }
}

/// What a typed line means: its text without surrounding white space is the
/// address, and a line with nothing else in it gives none.
pub open spec fn typed_identifier(line: Seq<char>) -> Result<Seq<char>, RunErrorView> {
    entered_identifier(trimmed(line))
}

/// What an already trimmed text means: it is the address unless it is empty.
pub open spec fn entered_identifier(text: Seq<char>) -> Result<Seq<char>, RunErrorView> {
    if text.len() == 0 {
        Err(RunErrorView::NoIdentifierProvided)
    } else {
        Ok(text)
    }
}

/// Mathematical value of a result that hands out text.
pub open spec fn text_view(outcome: Result<String, RunError>) -> Result<Seq<char>, RunErrorView> {
    match outcome {
        Ok(text) => Ok(text@),
        Err(e) => Err(e@),
    }
}

/// Takes an already trimmed text as the address, unless it is empty.
pub fn identifier_from_text(text: &str) -> (outcome: Result<String, RunError>)
    ensures
        text_view(outcome) == entered_identifier(text@),
{
    if text.unicode_len() == 0 {
        Err(RunError::NoIdentifierProvided)
    } else {
        Ok(text.to_owned())
    }
}

/// Takes a line that the user typed as the address: white space around it is
/// dropped, and a line that holds nothing else is refused.
pub fn identifier_from_line(line: &str) -> (outcome: Result<String, RunError>)
    ensures
        text_view(outcome) == typed_identifier(line@),
{
    identifier_from_text(trim(line))
}

/// The pattern that an address has to match: an optional scheme, an optional
/// `www.`, one of three host names, a slash, and at least one more character.
pub open spec fn address_pattern() -> Seq<char> {
    r"^(https?://)?(www\.)?(youtube\.com|youtu\.be|music\.youtube\.com)/.+"@
}

/// Whether the pattern engine takes `pattern` as a valid pattern that is not
/// too large, as `regex::Regex::new` decides it.
pub uninterp spec fn pattern_accepted(pattern: Seq<char>) -> bool;

/// Whether `pattern` matches somewhere in `haystack`, as
/// `regex::Regex::is_match` decides it for the compiled pattern.
pub uninterp spec fn pattern_found(pattern: Seq<char>, haystack: Seq<char>) -> bool;

#[verifier::external_type_specification]
#[verifier::external_body]
pub struct ExPatternError(regex::Error);

/// `regex::Regex::new` followed by `regex::Regex::is_match`: compiles
/// `pattern` and searches `haystack` for it. The result is an error exactly
/// when the pattern is refused ([`pattern_accepted`]); otherwise it says
/// whether there is a match ([`pattern_found`]). Both depend on the two
/// texts only. Nothing is claimed about which patterns are accepted or what
/// they match.
#[verifier::external_body]
fn search(pattern: &str, haystack: &str) -> (searched: Result<bool, regex::Error>)
    ensures
        searched is Ok == pattern_accepted(pattern@),
        searched matches Ok(found) ==> found == pattern_found(pattern@, haystack@),
{
    match regex::Regex::new(pattern) {
        Ok(compiled) => Ok(compiled.is_match(haystack)),
        Err(e) => Err(e),
    }
}

/// What the search for the address pattern means: a match is a valid
/// address, no match an invalid one, and a refused pattern leaves the run
/// without validator.
pub open spec fn validation_of(searched: Result<bool, regex::Error>) -> Result<(), RunErrorView> {
    match searched {
        Ok(found) => if found {
            Ok(())
        } else {
            Err(RunErrorView::InvalidIdentifier)
        },
        Err(_) => Err(RunErrorView::ValidatorUnavailable),
    }
}

/// Whether `identifier` is a valid address.
pub open spec fn validated(identifier: Seq<char>) -> Result<(), RunErrorView> {
    if !pattern_accepted(address_pattern()) {
        Err(RunErrorView::ValidatorUnavailable)
    } else if pattern_found(address_pattern(), identifier) {
        Ok(())
    } else {
        Err(RunErrorView::InvalidIdentifier)
    }
}

/// Reads the result of the search for the address pattern.
pub fn validation_verdict(searched: Result<bool, regex::Error>) -> (outcome: Result<(), RunError>)
    ensures
        outcome_view(outcome) == validation_of(searched),
{
    match searched {
        Ok(true) => Ok(()),
        Ok(false) => Err(RunError::InvalidIdentifier),
        Err(_) => Err(RunError::ValidatorUnavailable),
    }
}

/// Checks that `identifier` looks like an address of a supported site.
pub fn validate_identifier(identifier: &str) -> (outcome: Result<(), RunError>)
    ensures
        outcome_view(outcome) == validated(identifier@),
{
    let searched = search(
        r"^(https?://)?(www\.)?(youtube\.com|youtu\.be|music\.youtube\.com)/.+",
        identifier,
    );
    validation_verdict(searched)
}

} // verus!
