//! The fzf picker adapter: candidate rendering, argument construction, capability checks
//! and the interpretation of fzf's selection output.

use vstd::prelude::*;
use vstd::utf8::{decode_utf8, valid_utf8};

use crate::process::{
    DEFAULT_MAX_OUTPUT_BYTES,
    OutputPolicy, ProcessCommand, ProcessError, ProcessOutput, ProcessRunner, StdinPolicy,
};
use crate::text::{
    bytes_contain, contains_subseq, utf8_string,
    chars_of, join_spec, join_strings, matches_at, newlines_to_spaces, starts_with_str, str_eq,
    string_of, trim_chars, trim_spec, trim_trailing_newlines_spec, utf8_lossy, utf8_lossy_string,
};

verus! {

/// Timeout of the `fzf --version` / `fzf --help` probes, in milliseconds.
pub const CHECK_TIMEOUT_MS: u64 = 5000;

/// One picker row: the rendered line (tab-separated, possibly colored) and the path it selects.
#[derive(Clone, Debug, PartialEq, Eq)]
pub struct PickerCandidate {
    pub line: String,
    pub path: String,
}

/// Where the `cd` picker is shown.
#[derive(Clone, Copy, Debug, PartialEq, Eq, Structural)]
pub enum SelectorCdSurface {
    Auto,
    Inline,
    TmuxPopup,
}

#[derive(Clone, Debug)]
pub struct FzfRequest<'a> {
    pub candidates: &'a [PickerCandidate],
    pub cwd: &'a str,
    pub prompt: &'a str,
    pub surface: SelectorCdSurface,
    pub tmux_popup_opts: &'a str,
    pub extra_args: &'a [String],
    pub stderr_is_terminal: bool,
    pub in_tmux: bool,
}

#[derive(Clone, Debug, PartialEq, Eq)]
pub enum FzfSelection {
    Selected(String),
    Cancelled,
}

#[derive(Debug)]
pub struct FzfCommandFailure {
    pub signal: Option<i32>,
    pub stdout_truncated: bool,
    pub stderr_truncated: bool,
    pub exit_code: Option<i32>,
    pub timed_out: bool,
    pub stdout: Vec<u8>,
    pub stderr: Vec<u8>,
}

#[derive(Debug)]
pub enum FzfError {
    NoCandidates,
    InteractiveRequired,
    DependencyMissing,
    InvalidArgument(String),
    TmuxPopupUnsupported,
    CapabilityCheckFailed(FzfCommandFailure),
    CommandFailed(FzfCommandFailure),
    InvalidOutput(String),
    AmbiguousCandidate(String),
    Process(ProcessError),
}

/// The failure record carries every field of the output unchanged.
pub open spec fn failure_of(output: ProcessOutput) -> FzfCommandFailure {
    FzfCommandFailure {
        signal: output.signal,
        stdout_truncated: output.stdout_truncated,
        stderr_truncated: output.stderr_truncated,
        exit_code: output.exit_code,
        timed_out: output.timed_out,
        stdout: output.stdout,
        stderr: output.stderr,
    }
}

impl FzfCommandFailure {
    pub fn from_output(output: ProcessOutput) -> (failure: Self)
        ensures
            failure == failure_of(output),
    {
        FzfCommandFailure {
            signal: output.signal,
            stdout_truncated: output.stdout_truncated,
            stderr_truncated: output.stderr_truncated,
            exit_code: output.exit_code,
            timed_out: output.timed_out,
            stdout: output.stdout,
            stderr: output.stderr,
        }
    }
}

// ----- ANSI escape stripping -----

/// Index just past a CSI sequence body that starts at `j`: the first byte in `0x40..=0x7e`
/// (inclusive) ends it; an unterminated sequence runs to the end.
pub open spec fn csi_end(b: Seq<u8>, j: int) -> int
    decreases b.len() - j,
{
    if j < 0 || j >= b.len() {
        b.len() as int
    } else if 0x40 <= b[j] <= 0x7e {
        j + 1
    } else {
        csi_end(b, j + 1)
    }
}

pub proof fn lemma_csi_end_bounds(b: Seq<u8>, j: int)
    requires
        0 <= j,
    ensures
        j <= b.len() ==> j <= csi_end(b, j) <= b.len(),
        j > b.len() ==> csi_end(b, j) == b.len(),
    decreases b.len() - j,
{
    if j < b.len() && !(0x40 <= b[j] <= 0x7e) {
        lemma_csi_end_bounds(b, j + 1);
    }
}

/// Bytes from index `i` with every `ESC [ ... final` sequence removed.
pub open spec fn strip_ansi_from(b: Seq<u8>, i: int) -> Seq<u8>
    decreases b.len() - i,
{
    if i < 0 || i >= b.len() {
        Seq::empty()
    } else if b[i] == 0x1b && i + 1 < b.len() && b[i + 1] == 0x5b {
        proof {
            lemma_csi_end_bounds(b, i + 2);
        }
        strip_ansi_from(b, csi_end(b, i + 2))
    } else {
        seq![b[i]] + strip_ansi_from(b, i + 1)
    }
}

/// The text with ANSI CSI escape sequences removed, decoded leniently.
pub open spec fn strip_ansi_spec(s: Seq<char>) -> Seq<char> {
    utf8_lossy(strip_ansi_from(vstd::utf8::encode_utf8(s), 0))
}

fn strip_ansi_bytes(bytes: &[u8]) -> (out: Vec<u8>)
    ensures
        out@ == strip_ansi_from(bytes@, 0),
{
    let mut out: Vec<u8> = Vec::new();
    let mut index: usize = 0;
    while index < bytes.len()
        invariant
            index <= bytes@.len(),
            out@ + strip_ansi_from(bytes@, index as int) == strip_ansi_from(bytes@, 0),
        decreases bytes.len() - index,
    {
        if bytes[index] == 0x1b && index + 1 < bytes.len() && bytes[index + 1] == 0x5b {
            let ghost start = index;
            index = index + 2;
            proof {
                lemma_csi_end_bounds(bytes@, start + 2);
            }
            while index < bytes.len()
                invariant_except_break
                    start + 2 <= index <= bytes@.len(),
                    csi_end(bytes@, start + 2) == csi_end(bytes@, index as int),
                ensures
                    index <= bytes@.len(),
                    index as int == csi_end(bytes@, start + 2),
                decreases bytes.len() - index,
            {
                let byte = bytes[index];
                index = index + 1;
                if 0x40 <= byte && byte <= 0x7e {
                    break;
                }
            }
            assert(index as int == csi_end(bytes@, start + 2));
        } else {
            let ghost before = out@;
            out.push(bytes[index]);
            assert(out@ + strip_ansi_from(bytes@, index + 1) =~= before + strip_ansi_from(
                bytes@,
                index as int,
            ));
            index = index + 1;
        }
    }
    assert(out@ + strip_ansi_from(bytes@, index as int) =~= out@);
    out
}

/// Removes ANSI CSI escape sequences (colors) from rendered text.
pub fn strip_ansi(value: &str) -> (out: String)
    ensures
        out@ == strip_ansi_spec(value@),
{
    let stripped = strip_ansi_bytes(value.as_bytes());
    utf8_lossy_string(stripped.as_slice())
}

/// Carriage returns and newlines become spaces so a candidate stays one fzf record.
pub fn sanitize_candidate(value: &str) -> (out: String)
    ensures
        out@ == newlines_to_spaces(value@),
{
    let chars = chars_of(value);
    let mut out: Vec<char> = Vec::new();
    let mut i: usize = 0;
    while i < chars.len()
        invariant
            i <= chars@.len(),
            chars@ == value@,
            out@ == newlines_to_spaces(value@.take(i as int)),
        decreases chars.len() - i,
    {
        let c = chars[i];
        out.push(if c == '\r' || c == '\n' { ' ' } else { c });
        assert(newlines_to_spaces(value@.take(i + 1)) =~= newlines_to_spaces(value@.take(i as int)).push(
            if c == '\r' || c == '\n' { ' ' } else { c },
        ));
        i = i + 1;
    }
    assert(value@.take(chars@.len() as int) =~= value@);
    string_of(&out)
}

/// Removes trailing carriage returns and newlines.
pub fn trim_trailing_newlines(value: &str) -> (out: String)
    ensures
        out@ == trim_trailing_newlines_spec(value@),
{
    let chars = chars_of(value);
    let mut end: usize = chars.len();
    assert(value@.take(end as int) =~= value@);
    while end > 0 && (chars[end - 1] == '\r' || chars[end - 1] == '\n')
        invariant
            end <= chars@.len(),
            chars@ == value@,
            trim_trailing_newlines_spec(value@) == trim_trailing_newlines_spec(value@.take(end as int)),
        decreases end,
    {
        assert(value@.take(end as int).drop_last() =~= value@.take(end - 1));
        end = end - 1;
    }
    let mut out: Vec<char> = Vec::new();
    let mut k: usize = 0;
    while k < end
        invariant
            k <= end <= chars@.len(),
            out@ == chars@.take(k as int),
        decreases end - k,
    {
        out.push(chars[k]);
        assert(chars@.take(k + 1) =~= chars@.take(k as int).push(chars@[k as int]));
        k = k + 1;
    }
    assert(out@ =~= value@.take(end as int));
    string_of(&out)
}

// ----- extra argument validation -----

/// Options that the adapter sets itself or whose effect would break selection parsing.
pub open spec fn reserved_fzf_options() -> Seq<Seq<char>> {
    seq![
        "--prompt"@,
        "--layout"@,
        "--height"@,
        "--border"@,
        "--delimiter"@,
        "--with-nth"@,
        "--preview"@,
        "--preview-window"@,
        "--ansi"@,
        "--tmux"@,
        "--multi"@,
        "--print-query"@,
        "--expect"@,
        "--read0"@,
        "--print0"@,
        "--filter"@,
    ]
}

/// An argument names a reserved option, alone or with an `=value` suffix.
pub open spec fn is_reserved_fzf_arg(arg: Seq<char>) -> bool {
    exists|k: int|
        0 <= k < reserved_fzf_options().len() && (arg == reserved_fzf_options()[k] || matches_at(
            arg,
            reserved_fzf_options()[k] + seq!['='],
            0,
        ))
}

/// Index of the first reserved extra argument.
pub open spec fn first_reserved_arg(args: Seq<Seq<char>>, i: int) -> Option<int>
    decreases args.len() - i,
{
    if i < 0 || i >= args.len() {
        None
    } else if is_reserved_fzf_arg(args[i]) {
        Some(i)
    } else {
        first_reserved_arg(args, i + 1)
    }
}

pub open spec fn reserved_arg_message(arg: Seq<char>) -> Seq<char> {
    "fzf argument is reserved by the picker: "@ + arg
}

fn reserved_option_list() -> (options: Vec<&'static str>)
    ensures
        options@.len() == reserved_fzf_options().len(),
        forall|k: int| 0 <= k < options@.len() ==> options@[k]@ == reserved_fzf_options()[k],
{
    vec![
        "--prompt",
        "--layout",
        "--height",
        "--border",
        "--delimiter",
        "--with-nth",
        "--preview",
        "--preview-window",
        "--ansi",
        "--tmux",
        "--multi",
        "--print-query",
        "--expect",
        "--read0",
        "--print0",
        "--filter",
    ]
}

fn is_reserved_arg(arg: &str) -> (reserved: bool)
    ensures
        reserved == is_reserved_fzf_arg(arg@),
{
    let options = reserved_option_list();
    let mut k: usize = 0;
    while k < options.len()
        invariant
            k <= options@.len(),
            options@.len() == reserved_fzf_options().len(),
            forall|j: int| 0 <= j < options@.len() ==> options@[j]@ == reserved_fzf_options()[j],
            forall|j: int|
                0 <= j < k ==> !(arg@ == reserved_fzf_options()[j] || matches_at(
                    arg@,
                    reserved_fzf_options()[j] + seq!['='],
                    0,
                )),
        decreases options.len() - k,
    {
        let option = options[k];
        if str_eq(arg, option) {
            assert(arg@ == reserved_fzf_options()[k as int]);
            assert(is_reserved_fzf_arg(arg@));
            return true;
        }
        let mut with_equals = String::from_str(option);
        with_equals.push('=');
        assert(with_equals@ =~= reserved_fzf_options()[k as int] + seq!['=']);
        if starts_with_str(arg, with_equals.as_str()) {
            assert(matches_at(arg@, reserved_fzf_options()[k as int] + seq!['='], 0));
            assert(is_reserved_fzf_arg(arg@));
            return true;
        }
        k = k + 1;
    }
    false
}

/// Rejects extra fzf arguments that would override the picker's own options.
pub fn validate_fzf_extra_args(extra_args: &[String]) -> (result: Result<(), String>)
    ensures
        ({
            let args = extra_args@.map_values(|a: String| a@);
            match first_reserved_arg(args, 0) {
                None => result is Ok,
                Some(i) => result matches Err(m) && m@ == reserved_arg_message(args[i]),
            }
        }),
{
    let ghost args = extra_args@.map_values(|a: String| a@);
    let mut i: usize = 0;
    while i < extra_args.len()
        invariant
            i <= extra_args@.len(),
            args == extra_args@.map_values(|a: String| a@),
            first_reserved_arg(args, 0) == first_reserved_arg(args, i as int),
        decreases extra_args.len() - i,
    {
        if is_reserved_arg(extra_args[i].as_str()) {
            let mut message = String::from_str("fzf argument is reserved by the picker: ");
            message.append(extra_args[i].as_str());
            return Err(message);
        }
        i = i + 1;
    }
    Ok(())
}

// ----- commands -----

pub open spec fn check_command_spec(command: ProcessCommand, cwd: Seq<char>, argument: Seq<char>) -> bool {
    &&& command.program@ == "fzf"@
    &&& command.args@.len() == 1
    &&& command.args@[0]@ == argument
    &&& command.cwd matches Some(c) && c@ == cwd
    &&& command.stdin == StdinPolicy::Null
    &&& command.stdout == OutputPolicy::Capture
    &&& command.stderr == OutputPolicy::Capture
    &&& command.timeout_ms == Some(CHECK_TIMEOUT_MS)
}

/// A bounded probe `fzf <argument>` with captured output.
pub fn check_command(cwd: &str, argument: &str) -> (command: ProcessCommand)
    ensures
        check_command_spec(command, cwd@, argument@),
{
    let mut command = ProcessCommand::new("fzf");
    let mut args: Vec<String> = Vec::new();
    args.push(argument.to_owned());
    command.args = args;
    command.cwd = Some(cwd.to_owned());
    command.stdin = StdinPolicy::Null;
    command.stdout = OutputPolicy::Capture;
    command.stderr = OutputPolicy::Capture;
    command.timeout_ms = Some(CHECK_TIMEOUT_MS);
    command
}

/// The fixed picker options, then the user's extra arguments, then the popup option.
pub open spec fn fzf_args_spec(prompt: Seq<char>, extra: Seq<Seq<char>>, popup: bool, popup_opts: Seq<char>) -> Seq<Seq<char>> {
    let fixed = seq![
        "--prompt="@ + prompt,
        "--layout=reverse"@,
        "--height=80%"@,
        "--border"@,
        "--delimiter=\t"@,
        "--with-nth=1"@,
        "--preview=printf '%b' {3}"@,
        "--preview-window=right,60%,wrap"@,
        "--ansi"@,
    ];
    if popup {
        fixed + extra + seq!["--tmux="@ + popup_opts]
    } else {
        fixed + extra
    }
}

pub fn build_args(request: &FzfRequest<'_>, popup: bool) -> (args: Vec<String>)
    ensures
        args@.map_values(|a: String| a@) == fzf_args_spec(
            request.prompt@,
            request.extra_args@.map_values(|a: String| a@),
            popup,
            request.tmux_popup_opts@,
        ),
{
    let mut args: Vec<String> = Vec::new();
    let mut prompt = String::from_str("--prompt=");
    prompt.append(request.prompt);
    args.push(prompt);
    args.push(String::from_str("--layout=reverse"));
    args.push(String::from_str("--height=80%"));
    args.push(String::from_str("--border"));
    args.push(String::from_str("--delimiter=\t"));
    args.push(String::from_str("--with-nth=1"));
    args.push(String::from_str("--preview=printf '%b' {3}"));
    args.push(String::from_str("--preview-window=right,60%,wrap"));
    args.push(String::from_str("--ansi"));
    let ghost fixed = args@.map_values(|a: String| a@);
    assert(fixed =~= seq![
        "--prompt="@ + request.prompt@,
        "--layout=reverse"@,
        "--height=80%"@,
        "--border"@,
        "--delimiter=\t"@,
        "--with-nth=1"@,
        "--preview=printf '%b' {3}"@,
        "--preview-window=right,60%,wrap"@,
        "--ansi"@,
    ]);
    let ghost extra = request.extra_args@.map_values(|a: String| a@);
    let mut i: usize = 0;
    while i < request.extra_args.len()
        invariant
            i <= extra.len(),
            extra == request.extra_args@.map_values(|a: String| a@),
            fixed.len() == 9,
            args@.map_values(|a: String| a@) == fixed + extra.take(i as int),
        decreases request.extra_args.len() - i,
    {
        let ghost before = args@;
        args.push(request.extra_args[i].clone());
        assert(extra.take(i + 1) =~= extra.take(i as int).push(extra[i as int]));
        assert(args@ == before.push(args@.last()));
        assert(args@.map_values(|a: String| a@) =~= before.map_values(|a: String| a@).push(extra[i as int]));
        i = i + 1;
    }
    assert(extra.take(extra.len() as int) =~= extra);
    if popup {
        let mut tmux = String::from_str("--tmux=");
        tmux.append(request.tmux_popup_opts);
        let ghost before = args@;
        args.push(tmux);
        assert(args@.map_values(|a: String| a@) =~= before.map_values(|a: String| a@).push("--tmux="@ + request.tmux_popup_opts@));
    }
    assert(args@.map_values(|a: String| a@) =~= fzf_args_spec(
        request.prompt@,
        extra,
        popup,
        request.tmux_popup_opts@,
    ));
    args
}

// ----- candidates -----

/// The line shown for a candidate: newlines turned into spaces.
pub open spec fn candidate_line(c: PickerCandidate) -> Seq<char> {
    newlines_to_spaces(c.line@)
}

/// The selection key of a candidate: its shown line without colors.
pub open spec fn candidate_key(c: PickerCandidate) -> Seq<char> {
    strip_ansi_spec(candidate_line(c))
}

/// A candidate is offered unless its line is blank.
pub open spec fn candidate_kept(c: PickerCandidate) -> bool {
    trim_spec(candidate_line(c)).len() > 0
}

/// The candidates that are offered, in order.
pub open spec fn kept_candidates(cs: Seq<PickerCandidate>) -> Seq<PickerCandidate>
    decreases cs.len(),
{
    if cs.len() == 0 {
        Seq::empty()
    } else if candidate_kept(cs.last()) {
        kept_candidates(cs.drop_last()).push(cs.last())
    } else {
        kept_candidates(cs.drop_last())
    }
}

/// First index `j >= i` whose key equals an earlier key.
pub open spec fn first_repeat(keys: Seq<Seq<char>>, i: int) -> Option<int>
    decreases keys.len() - i,
{
    if i < 0 || i >= keys.len() {
        None
    } else if keys.take(i).contains(keys[i]) {
        Some(i)
    } else {
        first_repeat(keys, i + 1)
    }
}

pub open spec fn ambiguous_message(key: Seq<char>) -> Seq<char> {
    "multiple fzf candidates render as the same selection: "@ + key
}

/// Selection key and path of each offered candidate, in order.
pub open spec fn candidate_mapping(kept: Seq<PickerCandidate>) -> Seq<(Seq<char>, Seq<char>)> {
    kept.map_values(|c: PickerCandidate| (candidate_key(c), c.path@))
}

/// What `candidate_input` returns: the fzf input (offered lines joined by newlines) and
/// the key-to-path mapping, or the first ambiguity, or `NoCandidates`.
pub open spec fn candidate_input_ok(cs: Seq<PickerCandidate>, input: Seq<char>, mapping: Seq<(Seq<char>, Seq<char>)>) -> bool {
    let kept = kept_candidates(cs);
    &&& input == join_spec(kept.map_values(|c: PickerCandidate| candidate_line(c)), "\n"@)
    &&& mapping == candidate_mapping(kept)
}

pub open spec fn keys_of(m: Seq<(Seq<char>, Seq<char>)>) -> Seq<Seq<char>> {
    m.map_values(|e: (Seq<char>, Seq<char>)| e.0)
}

proof fn lemma_first_repeat_prefix(keys: Seq<Seq<char>>, i: int)
    requires
        0 <= i <= keys.len(),
        forall|j: int| 0 <= j < i ==> !#[trigger] keys.take(j).contains(keys[j]),
    ensures
        first_repeat(keys, 0) == first_repeat(keys, i),
    decreases i,
{
    if i > 0 {
        lemma_first_repeat_prefix(keys, i - 1);
    }
}

proof fn lemma_first_repeat_char(keys: Seq<Seq<char>>, i: int)
    requires
        0 <= i,
    ensures
        first_repeat(keys, i) matches Some(j) ==> i <= j < keys.len() && keys.take(j).contains(
            keys[j],
        ) && forall|k: int| i <= k < j ==> !#[trigger] keys.take(k).contains(keys[k]),
        first_repeat(keys, i) is None ==> forall|k: int|
            i <= k < keys.len() ==> !#[trigger] keys.take(k).contains(keys[k]),
    decreases keys.len() - i,
{
    if i < keys.len() && !keys.take(i).contains(keys[i]) {
        lemma_first_repeat_char(keys, i + 1);
    }
}

proof fn lemma_first_repeat_extends(k1: Seq<Seq<char>>, k2: Seq<Seq<char>>, j: int)
    requires
        k1.len() <= k2.len(),
        k2.take(k1.len() as int) == k1,
        first_repeat(k1, 0) == Some(j),
    ensures
        first_repeat(k2, 0) == Some(j),
{
    lemma_first_repeat_char(k1, 0);
    lemma_first_repeat_char(k2, 0);
    assert forall|k: int| 0 <= k <= j implies #[trigger] k2.take(k) == k1.take(k) && k2[k] == k1[k] by {
        assert(k2.take(k) =~= k2.take(k1.len() as int).take(k));
        assert(k2[k] == k2.take(k1.len() as int)[k]);
    }
    assert(k2.take(j).contains(k2[j]));
    match first_repeat(k2, 0) {
        Some(j2) => {
            if j2 < j {
                assert(k2.take(j2) == k1.take(j2));
                assert(k1.take(j2).contains(k1[j2]));
            }
        },
        None => {},
    }
}

proof fn lemma_kept_prefix(cs: Seq<PickerCandidate>, i: int)
    requires
        0 <= i <= cs.len(),
    ensures
        kept_candidates(cs.take(i)).len() <= kept_candidates(cs).len(),
        kept_candidates(cs).take(kept_candidates(cs.take(i)).len() as int) == kept_candidates(
            cs.take(i),
        ),
    decreases cs.len(),
{
    if i == cs.len() {
        assert(cs.take(i) =~= cs);
        assert(kept_candidates(cs).take(kept_candidates(cs).len() as int) =~= kept_candidates(cs));
    } else {
        let d = cs.drop_last();
        lemma_kept_prefix(d, i);
        assert(d.take(i) =~= cs.take(i));
        let n = kept_candidates(cs.take(i)).len() as int;
        if candidate_kept(cs.last()) {
            assert(kept_candidates(cs).take(n) =~= kept_candidates(d).take(n));
        }
    }
}

proof fn lemma_mapping_take(kept: Seq<PickerCandidate>, n: int)
    requires
        0 <= n <= kept.len(),
    ensures
        keys_of(candidate_mapping(kept)).take(n) == keys_of(candidate_mapping(kept.take(n))),
{
    assert(keys_of(candidate_mapping(kept)).take(n) =~= keys_of(candidate_mapping(kept.take(n))));
}

/// Lines offered to fzf and the mapping from each selection key back to its path.
pub fn candidate_input(candidates: &[PickerCandidate]) -> (result: Result<(String, Vec<(String, String)>), FzfError>)
    ensures
        ({
            let kept = kept_candidates(candidates@);
            let keys = keys_of(candidate_mapping(kept));
            match first_repeat(keys, 0) {
                Some(j) => result matches Err(FzfError::AmbiguousCandidate(m)) && m@
                    == ambiguous_message(keys[j]),
                None => if kept.len() == 0 {
                    result matches Err(FzfError::NoCandidates)
                } else {
                    result matches Ok((input, mapping)) && candidate_input_ok(
                        candidates@,
                        input@,
                        mapping@.map_values(|e: (String, String)| (e.0@, e.1@)),
                    )
                },
            }
        }),
{
    let mut lines: Vec<String> = Vec::new();
    let mut mapping: Vec<(String, String)> = Vec::new();
    let mut i: usize = 0;
    while i < candidates.len()
        invariant
            i <= candidates@.len(),
            lines@.map_values(|l: String| l@) == kept_candidates(candidates@.take(i as int)).map_values(
                |c: PickerCandidate| candidate_line(c),
            ),
            mapping@.map_values(|e: (String, String)| (e.0@, e.1@)) == candidate_mapping(
                kept_candidates(candidates@.take(i as int)),
            ),
            first_repeat(keys_of(candidate_mapping(kept_candidates(candidates@.take(i as int)))), 0)
                is None,
        decreases candidates.len() - i,
    {
        let ghost prev = kept_candidates(candidates@.take(i as int));
        let ghost prev_keys = keys_of(candidate_mapping(prev));
        proof {
            lemma_first_repeat_char(prev_keys, 0);
        }
        assert(candidates@.take(i + 1).drop_last() =~= candidates@.take(i as int));
        assert(candidates@.take(i + 1).last() == candidates@[i as int]);
        let candidate = &candidates[i];
        let line = sanitize_candidate(candidate.line.as_str());
        let trimmed = trim_chars(&chars_of(line.as_str()));
        if trimmed.len() == 0 {
            assert(kept_candidates(candidates@.take(i + 1)) == prev);
            i = i + 1;
            continue;
        }
        let key = strip_ansi(line.as_str());
        let ghost now = kept_candidates(candidates@.take(i + 1));
        let ghost now_keys = keys_of(candidate_mapping(now));
        assert(now == prev.push(candidates@[i as int]));
        assert(now_keys =~= prev_keys.push(key@));
        assert forall|j: int| 0 <= j < prev_keys.len() implies !#[trigger] now_keys.take(j).contains(
            now_keys[j],
        ) by {
            assert(now_keys.take(j) =~= prev_keys.take(j));
            assert(now_keys[j] == prev_keys[j]);
        }
        let mut k: usize = 0;
        while k < mapping.len()
            invariant
                k <= mapping@.len(),
                mapping@.map_values(|e: (String, String)| (e.0@, e.1@)) == candidate_mapping(prev),
                prev_keys == keys_of(candidate_mapping(prev)),
                now_keys == prev_keys.push(key@),
                now_keys == keys_of(candidate_mapping(now)),
                now == kept_candidates(candidates@.take(i + 1)),
                i < candidates@.len(),
                forall|j: int|
                    0 <= j < prev_keys.len() ==> !#[trigger] now_keys.take(j).contains(now_keys[j]),
                forall|j: int| 0 <= j < k ==> prev_keys[j] != key@,
            decreases mapping.len() - k,
        {
            assert(mapping@.map_values(|e: (String, String)| (e.0@, e.1@))[k as int].0
                == prev_keys[k as int]);
            if str_eq(mapping[k].0.as_str(), key.as_str()) {
                proof {
                    assert(now_keys.take(prev_keys.len() as int) =~= prev_keys);
                    assert(now_keys.take(prev_keys.len() as int)[k as int] == key@);
                    assert(now_keys.take(prev_keys.len() as int).contains(
                        now_keys[prev_keys.len() as int],
                    ));
                }
                proof {
                    lemma_first_repeat_prefix(now_keys, prev_keys.len() as int);
                    let all = kept_candidates(candidates@);
                    lemma_kept_prefix(candidates@, i + 1);
                    lemma_mapping_take(all, now.len() as int);
                    lemma_first_repeat_extends(
                        now_keys,
                        keys_of(candidate_mapping(all)),
                        prev_keys.len() as int,
                    );
                }
                let mut message = String::from_str(
                    "multiple fzf candidates render as the same selection: ",
                );
                message.append(key.as_str());
                return Err(FzfError::AmbiguousCandidate(message));
            }
            k = k + 1;
        }
        proof {
            assert(now_keys.take(prev_keys.len() as int) =~= prev_keys);
            if prev_keys.contains(key@) {
                let w = choose|w: int| 0 <= w < prev_keys.len() && prev_keys[w] == key@;
                assert(prev_keys[w] != key@);
            }
            assert forall|j: int| 0 <= j < now_keys.len() implies !#[trigger] now_keys.take(
                j,
            ).contains(now_keys[j]) by {
                if j == prev_keys.len() {
                    assert(now_keys.take(j) =~= prev_keys);
                }
            }
            lemma_first_repeat_char(now_keys, 0);
        }
        let ghost before_mapping = mapping@;
        let ghost before_lines = lines@;
        mapping.push((key, candidate.path.clone()));
        lines.push(line);
        assert(mapping@.map_values(|e: (String, String)| (e.0@, e.1@)) =~= before_mapping.map_values(
            |e: (String, String)| (e.0@, e.1@),
        ).push((key@, candidates@[i as int].path@)));
        assert(mapping@.map_values(|e: (String, String)| (e.0@, e.1@)) =~= candidate_mapping(now));
        assert(lines@.map_values(|l: String| l@) =~= before_lines.map_values(|l: String| l@).push(
            candidate_line(candidates@[i as int]),
        ));
        assert(lines@.map_values(|l: String| l@) =~= now.map_values(
            |c: PickerCandidate| candidate_line(c),
        ));
        i = i + 1;
    }
    assert(candidates@.take(candidates@.len() as int) =~= candidates@);
    if lines.len() == 0 {
        return Err(FzfError::NoCandidates);
    }
    let input = join_strings(&lines, "\n");
    Ok((input, mapping))
}


// ----- interpreting fzf's output -----

/// The path paired with the first entry whose key is `key`.
pub open spec fn lookup_path(m: Seq<(Seq<char>, Seq<char>)>, key: Seq<char>) -> Option<Seq<char>>
    decreases m.len(),
{
    if m.len() == 0 {
        None
    } else if m[0].0 == key {
        Some(m[0].1)
    } else {
        lookup_path(m.drop_first(), key)
    }
}

pub open spec fn view_mapping(m: Seq<(String, String)>) -> Seq<(Seq<char>, Seq<char>)> {
    m.map_values(|e: (String, String)| (e.0@, e.1@))
}

fn find_path(mapping: &Vec<(String, String)>, key: &str) -> (found: Option<String>)
    ensures
        found matches Some(p) ==> lookup_path(view_mapping(mapping@), key@) == Some(p@),
        found is None ==> lookup_path(view_mapping(mapping@), key@) is None,
{
    let ghost m = view_mapping(mapping@);
    let mut i: usize = 0;
    assert(m.skip(0) =~= m);
    while i < mapping.len()
        invariant
            i <= mapping@.len(),
            m == view_mapping(mapping@),
            lookup_path(m, key@) == lookup_path(m.skip(i as int), key@),
        decreases mapping.len() - i,
    {
        assert(m.skip(i as int)[0] == m[i as int]);
        if str_eq(mapping[i].0.as_str(), key) {
            return Some(mapping[i].1.clone());
        }
        assert(m.skip(i as int).drop_first() =~= m.skip(i + 1));
        i = i + 1;
    }
    None
}

/// The text fzf printed, trimmed of line endings and colors.
pub open spec fn selected_key(stdout: Seq<u8>) -> Seq<char> {
    strip_ansi_spec(trim_trailing_newlines_spec(decode_utf8(stdout)))
}

/// How fzf's output maps to a selection: 130 or SIGINT cancels; any other failure, timeout
/// or truncation is a command failure; the printed line must be UTF-8 and, unless empty
/// (also a cancel), name one of the candidates.
pub open spec fn selection_outcome_ok(output: ProcessOutput, mapping: Seq<(Seq<char>, Seq<char>)>, result: Result<FzfSelection, FzfError>) -> bool {
    if output.exit_code == Some(130i32) || output.signal == Some(2i32) {
        result matches Ok(FzfSelection::Cancelled)
    } else if !output.spec_is_clean_success() {
        result == Err::<FzfSelection, FzfError>(FzfError::CommandFailed(failure_of(output)))
    } else if !valid_utf8(output.stdout@) {
        result matches Err(FzfError::InvalidOutput(m)) && m@
            == "fzf returned non-UTF-8 selection output"@
    } else if selected_key(output.stdout@).len() == 0 {
        result matches Ok(FzfSelection::Cancelled)
    } else {
        match lookup_path(mapping, selected_key(output.stdout@)) {
            Some(p) => result matches Ok(FzfSelection::Selected(q)) && q@ == p,
            None => result matches Err(FzfError::InvalidOutput(m)) && m@
                == "fzf returned a value that is not in the candidate list"@,
        }
    }
}

/// Interprets the picker's process output against the candidate mapping.
pub fn selection_from_output(output: ProcessOutput, mapping: &Vec<(String, String)>) -> (result: Result<FzfSelection, FzfError>)
    ensures
        selection_outcome_ok(output, view_mapping(mapping@), result),
{
    if output.exit_code == Some(130) || output.signal == Some(2) {
        return Ok(FzfSelection::Cancelled);
    }
    if output.exit_code != Some(0) || output.timed_out || output.is_truncated() {
        return Err(FzfError::CommandFailed(FzfCommandFailure::from_output(output)));
    }
    let text = match utf8_string(output.stdout) {
        Ok(text) => text,
        Err(_) => {
            return Err(FzfError::InvalidOutput(String::from_str("fzf returned non-UTF-8 selection output")));
        },
    };
    let trimmed = trim_trailing_newlines(text.as_str());
    let selected = strip_ansi(trimmed.as_str());
    if selected.unicode_len() == 0 {
        return Ok(FzfSelection::Cancelled);
    }
    match find_path(mapping, selected.as_str()) {
        Some(path) => Ok(FzfSelection::Selected(path)),
        None => Err(
            FzfError::InvalidOutput(
                String::from_str("fzf returned a value that is not in the candidate list"),
            ),
        ),
    }
}

/// A missing executable means fzf is not installed; other process errors are kept.
pub open spec fn map_process_error_spec(error: ProcessError) -> FzfError {
    if error.spec_is_missing_program() {
        FzfError::DependencyMissing
    } else {
        FzfError::Process(error)
    }
}

pub fn map_process_error(error: ProcessError) -> (mapped: FzfError)
    ensures
        mapped == map_process_error_spec(error),
{
    if error.is_missing_program() {
        FzfError::DependencyMissing
    } else {
        FzfError::Process(error)
    }
}

/// `fzf --version` must succeed cleanly; a missing program or a failed probe means the
/// dependency is missing, other process errors are reported as such.
pub open spec fn availability_spec(probe: Result<ProcessOutput, ProcessError>) -> Result<(), FzfError> {
    match probe {
        Ok(output) => if output.spec_is_clean_success() {
            Ok(())
        } else {
            Err(FzfError::DependencyMissing)
        },
        Err(error) => Err(map_process_error_spec(error)),
    }
}

pub fn availability_from_probe(probe: Result<ProcessOutput, ProcessError>) -> (result: Result<(), FzfError>)
    ensures
        result == availability_spec(probe),
{
    match probe {
        Ok(output) => {
            if output.exit_code == Some(0) && !output.timed_out && !output.is_truncated() {
                Ok(())
            } else {
                Err(FzfError::DependencyMissing)
            }
        },
        Err(error) => Err(map_process_error(error)),
    }
}

/// `fzf --help` must succeed cleanly; native tmux support is advertised by `--tmux` in it.
pub open spec fn capability_of(probe: Result<ProcessOutput, ProcessError>) -> Result<bool, FzfError> {
    match probe {
        Err(error) => Err(map_process_error_spec(error)),
        Ok(output) => if !output.spec_is_clean_success() {
            Err(FzfError::CapabilityCheckFailed(failure_of(output)))
        } else {
            Ok(contains_subseq(output.stdout@, "--tmux"@.map_values(|c: char| c as u8)))
        },
    }
}

pub open spec fn tmux_capability_spec(probe: Result<ProcessOutput, ProcessError>, result: Result<bool, FzfError>) -> bool {
    result == capability_of(probe)
}

pub fn tmux_capability_from_probe(probe: Result<ProcessOutput, ProcessError>) -> (result: Result<bool, FzfError>)
    ensures
        tmux_capability_spec(probe, result),
{
    match probe {
        Err(error) => Err(map_process_error(error)),
        Ok(output) => {
            if output.exit_code != Some(0) || output.timed_out || output.is_truncated() {
                return Err(FzfError::CapabilityCheckFailed(FzfCommandFailure::from_output(output)));
            }
            let needle: [u8; 6] = [0x2d, 0x2d, 0x74, 0x6d, 0x75, 0x78];
            proof {
                reveal_strlit("--tmux");
                assert(needle@ =~= "--tmux"@.map_values(|c: char| c as u8));
            }
            Ok(bytes_contain(output.stdout.as_slice(), &needle))
        },
    }
}

/// Whether the picker surface needs the `fzf --help` capability probe: only a surface that
/// may pop up, inside tmux.
pub open spec fn needs_capability_probe(surface: SelectorCdSurface, in_tmux: bool) -> bool {
    surface != SelectorCdSurface::Inline && in_tmux
}

/// The picker surface: `Inline` never pops up; `Auto` pops up only inside tmux with a
/// capable fzf (a failed check falls back to inline); `TmuxPopup` requires both and is
/// otherwise refused as unsupported, or with the failed check's error. `capability` is the
/// probe's reading, consulted only where the probe is needed.
pub open spec fn popup_spec(surface: SelectorCdSurface, in_tmux: bool, capability: Option<Result<bool, FzfError>>) -> Result<bool, FzfError> {
    match surface {
        SelectorCdSurface::Inline => Ok(false),
        SelectorCdSurface::Auto => if !in_tmux {
            Ok(false)
        } else {
            Ok(capability == Some(Ok::<bool, FzfError>(true)))
        },
        SelectorCdSurface::TmuxPopup => if !in_tmux {
            Err(FzfError::TmuxPopupUnsupported)
        } else {
            match capability {
                Some(Ok(true)) => Ok(true),
                Some(Err(e)) => Err(e),
                _ => Err(FzfError::TmuxPopupUnsupported),
            }
        },
    }
}

/// Decides the picker surface from the capability probe's reading, when one was needed.
pub fn popup_decision(surface: SelectorCdSurface, in_tmux: bool, capability: Option<Result<bool, FzfError>>) -> (popup: Result<bool, FzfError>)
    ensures
        popup == popup_spec(surface, in_tmux, capability),
{
    match surface {
        SelectorCdSurface::Inline => Ok(false),
        SelectorCdSurface::Auto => {
            if !in_tmux {
                Ok(false)
            } else {
                match capability {
                    Some(Ok(true)) => Ok(true),
                    _ => Ok(false),
                }
            }
        },
        SelectorCdSurface::TmuxPopup => {
            if !in_tmux {
                Err(FzfError::TmuxPopupUnsupported)
            } else {
                match capability {
                    Some(Ok(true)) => Ok(true),
                    Some(Err(e)) => Err(e),
                    _ => Err(FzfError::TmuxPopupUnsupported),
                }
            }
        },
    }
}

/// The picker run: `fzf` in the request's directory with the picker arguments, the
/// candidate lines on stdin, stdout captured, stderr left to the terminal, and no timeout.
pub open spec fn picker_command_spec(command: ProcessCommand, request: FzfRequest<'_>, popup: bool, input: Seq<char>) -> bool {
    &&& command.program@ == "fzf"@
    &&& command.args@.map_values(|a: String| a@) == fzf_args_spec(
        request.prompt@,
        request.extra_args@.map_values(|a: String| a@),
        popup,
        request.tmux_popup_opts@,
    )
    &&& command.cwd matches Some(c) && c@ == request.cwd@
    &&& command.env@.len() == 0
    &&& command.inherit_env
    &&& command.stdin matches StdinPolicy::Bytes(b) && b@ == vstd::utf8::encode_utf8(input)
    &&& command.stdout == OutputPolicy::Capture
    &&& command.stderr == OutputPolicy::Inherit
    &&& command.timeout_ms is None
    &&& command.max_output_bytes == DEFAULT_MAX_OUTPUT_BYTES
}

/// Builds the picker run for the candidate lines `input`.
pub fn picker_command(request: &FzfRequest<'_>, popup: bool, input: &String) -> (command: ProcessCommand)
    ensures
        picker_command_spec(command, *request, popup, input@),
{
    let mut command = ProcessCommand::new("fzf");
    command.args = build_args(request, popup);
    command.cwd = Some(request.cwd.to_owned());
    command.stdin = StdinPolicy::Bytes(input_bytes(input));
    command.stdout = OutputPolicy::Capture;
    command.stderr = OutputPolicy::Inherit;
    command.timeout_ms = None;
    command
}

/// Where a selection stands between the runs it asks for: after the version probe, after
/// the capability probe, after the picker run (with the mapping from picker keys to
/// candidate paths), or finished.
#[derive(Debug)]
pub enum FzfStage {
    Version,
    Capability,
    Picking(Vec<(String, String)>),
    Done(Result<FzfSelection, FzfError>),
}

/// The first step of a selection: the refusals that need no process, else the version probe.
pub open spec fn selection_start_ok(request: FzfRequest<'_>, stage: FzfStage, command: Option<ProcessCommand>) -> bool {
    let extra = request.extra_args@.map_values(|a: String| a@);
    if request_preflight(request) is Err {
        stage == FzfStage::Done(Err(request_preflight(request)->Err_0)) && command is None
    } else if first_reserved_arg(extra, 0) is Some {
        stage matches FzfStage::Done(Err(FzfError::InvalidArgument(m))) && m@ == reserved_arg_message(
            extra[first_reserved_arg(extra, 0)->Some_0],
        ) && command is None
    } else {
        stage == FzfStage::Version && (command matches Some(c) && check_command_spec(c, request.cwd@, "--version"@))
    }
}

/// The step after the surface was decided: the decision's refusal, the candidate list's own
/// refusals, or the picker run, popup exactly when the decision says so.
pub open spec fn after_surface_ok(
    request: FzfRequest<'_>,
    popup: Result<bool, FzfError>,
    stage: FzfStage,
    command: Option<ProcessCommand>,
) -> bool {
    let kept = kept_candidates(request.candidates@);
    let keys = keys_of(candidate_mapping(kept));
    match popup {
        Err(e) => stage == FzfStage::Done(Err(e)) && command is None,
        Ok(p) => match first_repeat(keys, 0) {
            Some(j) => stage matches FzfStage::Done(Err(FzfError::AmbiguousCandidate(m))) && m@ == ambiguous_message(keys[j])
                && command is None,
            None => if kept.len() == 0 {
                stage matches FzfStage::Done(Err(FzfError::NoCandidates)) && command is None
            } else {
                (stage matches FzfStage::Picking(mapping) && view_mapping(mapping@) == candidate_mapping(kept)) && (
                command matches Some(c) && picker_command_spec(
                    c,
                    request,
                    p,
                    join_spec(kept.map_values(|x: PickerCandidate| candidate_line(x)), "\n"@),
                ))
            },
        },
    }
}

/// The step after a run answered: a missing fzf ends the selection; a surface that may pop
/// up inside tmux asks for the capability probe; the picker's reply ends it. No run follows
/// the picker run.
pub open spec fn selection_next_ok(
    request: FzfRequest<'_>,
    stage: FzfStage,
    outcome: Result<ProcessOutput, ProcessError>,
    next: FzfStage,
    command: Option<ProcessCommand>,
) -> bool {
    match stage {
        FzfStage::Version => match availability_spec(outcome) {
            Err(e) => next == FzfStage::Done(Err(e)) && command is None,
            Ok(_) => if needs_capability_probe(request.surface, request.in_tmux) {
                next == FzfStage::Capability && (command matches Some(c) && check_command_spec(c, request.cwd@, "--help"@))
            } else {
                after_surface_ok(request, popup_spec(request.surface, request.in_tmux, None), next, command)
            },
        },
        FzfStage::Capability => after_surface_ok(
            request,
            popup_spec(request.surface, request.in_tmux, Some(capability_of(outcome))),
            next,
            command,
        ),
        FzfStage::Picking(mapping) => command is None && match outcome {
            Err(e) => next == FzfStage::Done(Err(map_process_error_spec(e))),
            Ok(o) => next matches FzfStage::Done(r) && selection_outcome_ok(o, view_mapping(mapping@), r),
        },
        FzfStage::Done(_) => false,
    }
}

/// The result of a finished selection.
pub fn finished(stage: FzfStage) -> (result: Result<FzfSelection, FzfError>)
    requires
        stage is Done,
    ensures
        stage == FzfStage::Done(result),
{
    match stage {
        FzfStage::Done(result) => result,
        _ => vstd::pervasive::unreached(),
    }
}

/// Starts a selection: refuses what needs no process, else asks for `fzf --version`.
pub fn selection_start(request: &FzfRequest<'_>) -> (step: (FzfStage, Option<ProcessCommand>))
    ensures
        selection_start_ok(*request, step.0, step.1),
{
    if request.candidates.len() == 0 {
        return (FzfStage::Done(Err(FzfError::NoCandidates)), None);
    }
    if !request.stderr_is_terminal {
        return (FzfStage::Done(Err(FzfError::InteractiveRequired)), None);
    }
    match validate_fzf_extra_args(request.extra_args) {
        Ok(()) => {},
        Err(message) => {
            return (FzfStage::Done(Err(FzfError::InvalidArgument(message))), None);
        },
    }
    proof {
        reveal_strlit("--version");
    }
    (FzfStage::Version, Some(check_command(request.cwd, "--version")))
}

fn after_surface(request: &FzfRequest<'_>, popup: Result<bool, FzfError>) -> (step: (FzfStage, Option<ProcessCommand>))
    ensures
        after_surface_ok(*request, popup, step.0, step.1),
{
    let popup = match popup {
        Ok(popup) => popup,
        Err(error) => {
            return (FzfStage::Done(Err(error)), None);
        },
    };
    match candidate_input(request.candidates) {
        Ok((input, mapping)) => {
            let command = picker_command(request, popup, &input);
            (FzfStage::Picking(mapping), Some(command))
        },
        Err(error) => (FzfStage::Done(Err(error)), None),
    }
}

/// Takes the answer of the run the previous step asked for and names the next one, if any.
pub fn selection_next(
    request: &FzfRequest<'_>,
    stage: FzfStage,
    outcome: Result<ProcessOutput, ProcessError>,
) -> (step: (FzfStage, Option<ProcessCommand>))
    requires
        !(stage is Done),
    ensures
        selection_next_ok(*request, stage, outcome, step.0, step.1),
{
    match stage {
        FzfStage::Version => match availability_from_probe(outcome) {
            Err(error) => (FzfStage::Done(Err(error)), None),
            Ok(()) => {
                if !matches!(request.surface, SelectorCdSurface::Inline) && request.in_tmux {
                    proof {
                        reveal_strlit("--help");
                    }
                    (FzfStage::Capability, Some(check_command(request.cwd, "--help")))
                } else {
                    after_surface(request, popup_decision(request.surface, request.in_tmux, None))
                }
            },
        },
        FzfStage::Capability => {
            let capability = tmux_capability_from_probe(outcome);
            after_surface(request, popup_decision(request.surface, request.in_tmux, Some(capability)))
        },
        FzfStage::Picking(mapping) => match outcome {
            Err(error) => (FzfStage::Done(Err(map_process_error(error))), None),
            Ok(output) => (FzfStage::Done(selection_from_output(output, &mapping)), None),
        },
        FzfStage::Done(result) => (FzfStage::Done(result), None),
    }
}

/// What `select_path` answers for the runner's answers to the version probe, the capability
/// probe and the picker run: the preflight refusals first, then a missing or failing fzf,
/// then the surface decision, then the candidate list's own refusals, then the picker's
/// reply read against the candidates.
pub open spec fn selection_answered(
    request: FzfRequest<'_>,
    version: Result<ProcessOutput, ProcessError>,
    help: Result<ProcessOutput, ProcessError>,
    reply: Result<ProcessOutput, ProcessError>,
    result: Result<FzfSelection, FzfError>,
) -> bool {
    let extra = request.extra_args@.map_values(|a: String| a@);
    let kept = kept_candidates(request.candidates@);
    let keys = keys_of(candidate_mapping(kept));
    if request_preflight(request) is Err {
        result == Err::<FzfSelection, FzfError>(request_preflight(request)->Err_0)
    } else if first_reserved_arg(extra, 0) is Some {
        result matches Err(FzfError::InvalidArgument(m)) && m@ == reserved_arg_message(extra[first_reserved_arg(extra, 0)->Some_0])
    } else if availability_spec(version) is Err {
        result == Err::<FzfSelection, FzfError>(availability_spec(version)->Err_0)
    } else {
        match popup_spec(request.surface, request.in_tmux, Some(capability_of(help))) {
            Err(e) => result == Err::<FzfSelection, FzfError>(e),
            Ok(_) => match first_repeat(keys, 0) {
                Some(j) => result matches Err(FzfError::AmbiguousCandidate(m)) && m@ == ambiguous_message(keys[j]),
                None => if kept.len() == 0 {
                    result matches Err(FzfError::NoCandidates)
                } else {
                    match reply {
                        Err(e) => result == Err::<FzfSelection, FzfError>(map_process_error_spec(e)),
                        Ok(output) => selection_outcome_ok(output, candidate_mapping(kept), result),
                    }
                },
            },
        }
    }
}

/// The conditions that `select_path` checks before running any process.
pub open spec fn request_preflight(request: FzfRequest<'_>) -> Result<(), FzfError> {
    if request.candidates@.len() == 0 {
        Err(FzfError::NoCandidates)
    } else if !request.stderr_is_terminal {
        Err(FzfError::InteractiveRequired)
    } else {
        Ok(())
    }
}

/// The runs behind a selection are answers `runner` may give to the commands the steps name:
/// `fzf --version` once the request passed its own checks, `fzf --help` when the surface needs
/// the capability probe, and the picker command, popup exactly as the surface decision says,
/// once the candidates are usable.
pub open spec fn selection_runs_reported<R: ProcessRunner>(
    runner: R,
    request: FzfRequest<'_>,
    version: Result<ProcessOutput, ProcessError>,
    help: Result<ProcessOutput, ProcessError>,
    reply: Result<ProcessOutput, ProcessError>,
) -> bool {
    let extra = request.extra_args@.map_values(|a: String| a@);
    let kept = kept_candidates(request.candidates@);
    let keys = keys_of(candidate_mapping(kept));
    let started = request_preflight(request) is Ok && first_reserved_arg(extra, 0) is None;
    let available = started && availability_spec(version) is Ok;
    let popup = popup_spec(request.surface, request.in_tmux, Some(capability_of(help)));
    &&& (started ==> exists|c: ProcessCommand| #[trigger] runner.ran(c, version) && check_command_spec(c, request.cwd@, "--version"@))
    &&& (available && needs_capability_probe(request.surface, request.in_tmux) ==> exists|c: ProcessCommand|
        #[trigger] runner.ran(c, help) && check_command_spec(c, request.cwd@, "--help"@))
    &&& (available && popup is Ok && first_repeat(keys, 0) is None && kept.len() > 0 ==> exists|c: ProcessCommand|
        #[trigger] runner.ran(c, reply) && picker_command_spec(
            c,
            request,
            popup->Ok_0,
            join_spec(kept.map_values(|x: PickerCandidate| candidate_line(x)), "\n"@),
        ))
}

#[derive(Debug)]
pub struct FzfAdapter<R> {
    runner: R,
}

impl<R: ProcessRunner> FzfAdapter<R> {
    pub closed spec fn spec_runner(&self) -> R {
        self.runner
    }

    pub fn new(runner: R) -> (adapter: Self)
        ensures
            adapter.spec_runner() == runner,
    {
        FzfAdapter { runner }
    }

    /// The runner the adapter drives.
    pub fn runner(&self) -> (runner: &R)
        ensures
            *runner == self.spec_runner(),
    {
        &self.runner
    }

    /// Asks the user to pick one candidate. Before any process runs, an empty candidate list,
    /// a non-terminal stderr and reserved extra arguments are rejected, in that order. Then
    /// `fzf --version` must succeed; a surface that may pop up inside tmux asks `fzf --help`
    /// whether native tmux popups are supported; the picker then runs once, popup or inline,
    /// and its reply is read against the candidates. The returned path is always the path of
    /// one of the candidates.
    pub fn select_path(&self, request: &FzfRequest<'_>) -> (result: Result<FzfSelection, FzfError>)
        ensures
            exists|
                version: Result<ProcessOutput, ProcessError>,
                help: Result<ProcessOutput, ProcessError>,
                reply: Result<ProcessOutput, ProcessError>,
            | #[trigger] selection_answered(*request, version, help, reply, result),
            exists|
                version: Result<ProcessOutput, ProcessError>,
                help: Result<ProcessOutput, ProcessError>,
                reply: Result<ProcessOutput, ProcessError>,
            |
                #[trigger] selection_answered(*request, version, help, reply, result)
                    && selection_runs_reported(self.spec_runner(), *request, version, help, reply),
            result matches Ok(FzfSelection::Selected(p)) ==> exists|i: int|
                0 <= i < request.candidates@.len() && request.candidates@[i].path@ == p@,
    {
        let ghost any_probe: Result<ProcessOutput, ProcessError> = arbitrary();
        let (stage, command) = selection_start(request);
        let command = match command {
            None => {
                let result = finished(stage);
                assert(selection_answered(*request, any_probe, any_probe, any_probe, result));
                assert(selection_runs_reported(self.runner, *request, any_probe, any_probe, any_probe));
                return result;
            },
            Some(command) => command,
        };
        let version = self.runner.run(&command);
        let ghost v = version;
        assert(self.runner.ran(command, v));
        let (stage, command) = selection_next(request, stage, version);
        let ghost mut help: Result<ProcessOutput, ProcessError> = any_probe;
        let (stage, command) = match stage {
            FzfStage::Capability => {
                let ghost hc = command->Some_0;
                let probe = self.runner.run(&command.unwrap());
                proof {
                    help = probe;
                    assert(self.runner.ran(hc, help));
                }
                selection_next(request, FzfStage::Capability, probe)
            },
            other => {
                proof {
                    if !(other is Done) {
                        assert(!needs_capability_probe(request.surface, request.in_tmux));
                        assert(popup_spec(request.surface, request.in_tmux, None) == popup_spec(
                            request.surface,
                            request.in_tmux,
                            Some(capability_of(help)),
                        ));
                    }
                }
                (other, command)
            },
        };
        let ghost before_pick = stage;
        let result = match stage {
            FzfStage::Done(result) => {
                assert(selection_answered(*request, v, help, any_probe, result));
                assert(selection_runs_reported(self.runner, *request, v, help, any_probe));
                result
            },
            FzfStage::Picking(mapping) => {
                let ghost pc = command->Some_0;
                let reply = self.runner.run(&command.unwrap());
                let ghost r = reply;
                assert(self.runner.ran(pc, r));
                let (done, _) = selection_next(request, FzfStage::Picking(mapping), reply);
                let result = finished(done);
                assert(selection_answered(*request, v, help, r, result));
                assert(selection_runs_reported(self.runner, *request, v, help, r));
                proof {
                    match &result {
                        Ok(FzfSelection::Selected(p)) => {
                            lemma_lookup_in_candidates(request.candidates@, view_mapping(mapping@), p@);
                        },
                        _ => {},
                    }
                }
                result
            },
            _ => vstd::pervasive::unreached(),
        };
        result
    }
}

/// The UTF-8 bytes of a string.
pub fn input_bytes(input: &String) -> (bytes: Vec<u8>)
    ensures
        bytes@ == vstd::utf8::encode_utf8(input@),
{
    let slice = input.as_str().as_bytes();
    let mut bytes: Vec<u8> = Vec::new();
    let mut i: usize = 0;
    while i < slice.len()
        invariant
            i <= slice@.len(),
            bytes@ == slice@.take(i as int),
        decreases slice.len() - i,
    {
        bytes.push(slice[i]);
        assert(slice@.take(i + 1) =~= slice@.take(i as int).push(slice@[i as int]));
        i = i + 1;
    }
    assert(slice@.take(slice@.len() as int) =~= slice@);
    bytes
}

proof fn lemma_lookup_in_candidates(cs: Seq<PickerCandidate>, m: Seq<(Seq<char>, Seq<char>)>, p: Seq<char>)
    requires
        m == candidate_mapping(kept_candidates(cs)),
        exists|key: Seq<char>| lookup_path(m, key) == Some(p),
    ensures
        exists|i: int| 0 <= i < cs.len() && cs[i].path@ == p,
{
    let key = choose|key: Seq<char>| lookup_path(m, key) == Some(p);
    lemma_lookup_member(m, key, p);
    let j = choose|j: int| 0 <= j < m.len() && m[j].1 == p;
    lemma_kept_members(cs, j);
}

proof fn lemma_lookup_member(m: Seq<(Seq<char>, Seq<char>)>, key: Seq<char>, p: Seq<char>)
    requires
        lookup_path(m, key) == Some(p),
    ensures
        exists|j: int| 0 <= j < m.len() && m[j].1 == p,
    decreases m.len(),
{
    if m[0].0 == key {
        assert(m[0].1 == p);
    } else {
        lemma_lookup_member(m.drop_first(), key, p);
        let j = choose|j: int| 0 <= j < m.drop_first().len() && m.drop_first()[j].1 == p;
        assert(m[j + 1].1 == p);
    }
}

proof fn lemma_kept_members(cs: Seq<PickerCandidate>, j: int)
    requires
        0 <= j < kept_candidates(cs).len(),
    ensures
        exists|i: int| 0 <= i < cs.len() && cs[i] == kept_candidates(cs)[j],
    decreases cs.len(),
{
    let d = cs.drop_last();
    if candidate_kept(cs.last()) && j == kept_candidates(cs).len() - 1 {
        assert(cs[cs.len() - 1] == kept_candidates(cs)[j]);
    } else {
        lemma_kept_members(d, j);
        let i = choose|i: int| 0 <= i < d.len() && d[i] == kept_candidates(d)[j];
        assert(cs[i] == kept_candidates(cs)[j]);
    }
}

}
