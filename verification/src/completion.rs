//! Shell completion scripts: where they are installed by default, and how the generated
//! zsh and fish scripts are extended with both binary names and the dynamic candidates the
//! binary emits; printing or installing a script.

use vstd::prelude::*;

use vstd::utf8::{decode_utf8, valid_utf8};

use crate::error::{detail_of, detail_view, object_view, CliError, DetailValue, DetailView, ErrorCode};
use crate::paths::{join_path, join_path_spec};
use crate::pipeline::CommandOutput;
use crate::text::{
    chars_of, find_from, find_in, join_spec, join_strings, replace_all, replace_all_in,
    replace_first, replace_first_str, replace_str, split_on, starts_with_str, string_of, utf8_string,
};

verus! {

#[derive(Clone, Copy, Debug, PartialEq, Eq, Structural)]
pub enum CompletionShell {
    Zsh,
    Fish,
}

impl CompletionShell {
    pub fn as_str(&self) -> (name: &'static str)
        ensures
            name@ == (match *self {
                CompletionShell::Zsh => "zsh"@,
                CompletionShell::Fish => "fish"@,
            }),
    {
        match self {
            CompletionShell::Zsh => "zsh",
            CompletionShell::Fish => "fish",
        }
    }
}

/// Where each shell looks for completions under the home directory.
pub open spec fn default_install_suffix(shell: CompletionShell) -> Seq<char> {
    match shell {
        CompletionShell::Zsh => ".zsh/completions/_vw"@,
        CompletionShell::Fish => ".config/fish/completions/vw.fish"@,
    }
}

/// The default completion file for a shell, inside the home directory; without a home
/// directory the path must be given explicitly.
pub fn default_install_path(shell: CompletionShell, home: Option<&str>) -> (result: Result<String, CliError>)
    ensures
        match home {
            Some(h) => result matches Ok(p) && p@ == join_path_spec(h@, default_install_suffix(shell)),
            None => result matches Err(e) && e.code == ErrorCode::InvalidArgument && e.message@
                == "home directory is unavailable; pass --path explicitly"@,
        },
{
    let home = match home {
        Some(home) => home,
        None => {
            return Err(CliError::new(ErrorCode::InvalidArgument, "home directory is unavailable; pass --path explicitly"));
        },
    };
    match shell {
        CompletionShell::Zsh => Ok(join_path(home, ".zsh/completions/_vw")),
        CompletionShell::Fish => Ok(join_path(home, ".config/fish/completions/vw.fish")),
    }
}

/// `str::replace` with a possibly empty pattern: an empty pattern inserts the replacement
/// before every character and at the end.
pub open spec fn replace_any(s: Seq<char>, needle: Seq<char>, with: Seq<char>) -> Seq<char> {
    if needle.len() == 0 {
        interleave(s, with)
    } else {
        replace_all(s, needle, with)
    }
}

pub open spec fn interleave(s: Seq<char>, with: Seq<char>) -> Seq<char>
    decreases s.len(),
{
    if s.len() == 0 {
        with
    } else {
        interleave(s.drop_last(), with) + seq![s.last()] + with
    }
}

fn interleave_chars(s: &Vec<char>, with: &Vec<char>) -> (out: Vec<char>)
    ensures
        out@ == interleave(s@, with@),
{
    let mut out: Vec<char> = Vec::new();
    let mut k: usize = 0;
    while k < with.len()
        invariant
            k <= with@.len(),
            out@ == with@.take(k as int),
        decreases with.len() - k,
    {
        out.push(with[k]);
        assert(out@ =~= with@.take(k + 1));
        k = k + 1;
    }
    assert(with@.take(with@.len() as int) =~= with@);
    assert(s@.take(0) =~= Seq::<char>::empty());
    let mut i: usize = 0;
    while i < s.len()
        invariant
            i <= s@.len(),
            out@ == interleave(s@.take(i as int), with@),
        decreases s.len() - i,
    {
        let ghost before = out@;
        out.push(s[i]);
        let mut k: usize = 0;
        while k < with.len()
            invariant
                k <= with@.len(),
                out@ == before + seq![s@[i as int]] + with@.take(k as int),
            decreases with.len() - k,
        {
            out.push(with[k]);
            assert(out@ =~= before + seq![s@[i as int]] + with@.take(k + 1));
            k = k + 1;
        }
        assert(with@.take(with@.len() as int) =~= with@);
        assert(s@.take(i + 1).drop_last() =~= s@.take(i as int));
        assert(out@ =~= interleave(s@.take(i + 1), with@));
        i = i + 1;
    }
    assert(s@.take(s@.len() as int) =~= s@);
    out
}

fn replace_chars(s: &Vec<char>, needle: &Vec<char>, with: &Vec<char>) -> (out: Vec<char>)
    ensures
        out@ == replace_any(s@, needle@, with@),
{
    if needle.len() == 0 {
        interleave_chars(s, with)
    } else {
        replace_all_in(s.as_slice(), needle.as_slice(), with.as_slice())
    }
}

/// The zsh script with `needle` replaced by `replacement` only inside the case branch of
/// `command`: from just after the `(<command>)` line to the next `\n;;`. Without such a
/// branch the script is unchanged.
pub open spec fn replace_in_command_spec(generated: Seq<char>, command: Seq<char>, needle: Seq<char>, replacement: Seq<char>) -> Seq<char> {
    let marker = "("@ + command + ")\n"@;
    match find_from(generated, marker, 0) {
        None => generated,
        Some(start) => {
            let body_start = start + marker.len();
            match find_from(generated, "\n;;"@, body_start) {
                None => generated,
                Some(end) => generated.take(body_start) + replace_any(
                    generated.subrange(body_start, end),
                    needle,
                    replacement,
                ) + generated.skip(end),
            }
        },
    }
}

fn copy_range(s: &Vec<char>, from: usize, to: usize) -> (out: Vec<char>)
    requires
        from <= to <= s@.len(),
    ensures
        out@ == s@.subrange(from as int, to as int),
{
    let mut out: Vec<char> = Vec::new();
    let mut k: usize = from;
    while k < to
        invariant
            from <= k <= to <= s@.len(),
            out@ == s@.subrange(from as int, k as int),
        decreases to - k,
    {
        out.push(s[k]);
        assert(out@ =~= s@.subrange(from as int, k + 1));
        k = k + 1;
    }
    out
}

pub fn replace_zsh_command_argument(generated: &str, command: &str, needle: &str, replacement: &str) -> (out: String)
    ensures
        out@ == replace_in_command_spec(generated@, command@, needle@, replacement@),
{
    let text = chars_of(generated);
    let mut marker_text = String::from_str("(");
    marker_text.append(command);
    marker_text.append(")\n");
    let marker = chars_of(marker_text.as_str());
    let start = match find_in(text.as_slice(), marker.as_slice(), 0) {
        Some(start) => start,
        None => {
            return generated.to_owned();
        },
    };
    proof {
        crate::text::lemma_find_from_bounds(text@, marker@, 0);
        assert(crate::text::matches_at(text@, marker@, start as int));
    }
    let n = text.len();
    assert(start + marker@.len() <= n);
    let body_start = start + marker.len();
    let end_marker = chars_of("\n;;");
    let end = match find_in(text.as_slice(), end_marker.as_slice(), body_start) {
        Some(end) => end,
        None => {
            return generated.to_owned();
        },
    };
    proof {
        crate::text::lemma_find_from_bounds(text@, end_marker@, body_start as int);
        assert(crate::text::matches_at(text@, end_marker@, end as int));
    }
    let head = copy_range(&text, 0, body_start);
    let body = copy_range(&text, body_start, end);
    let tail = copy_range(&text, end, text.len());
    let replaced = replace_chars(&body, &chars_of(needle), &chars_of(replacement));
    let mut out = string_of(&head);
    out.append(string_of(&replaced).as_str());
    out.append(string_of(&tail).as_str());
    assert(text@.subrange(0, body_start as int) =~= text@.take(body_start as int));
    assert(text@.subrange(end as int, text@.len() as int) =~= text@.skip(end as int));
    out
}

pub open spec fn zsh_helpers() -> Seq<char> {
    r#"
# Dynamic candidates are emitted as shell-safe TSV by the Rust binary.
_vw_dynamic_candidates() {
  local kind="$1" row value description
  local vw_bin="${words[1]:-vw}"
  local -a values
  command -v "$vw_bin" >/dev/null 2>&1 || return 0
  while IFS=$'\t' read -r value description; do
    [[ -n "$value" ]] || continue
    values+=("${value}:${description}")
  done < <(command "$vw_bin" __complete "$kind" 2>/dev/null)
  (( ${#values} > 0 )) && _describe -t "$kind" "$kind" values
}

_vw_complete_worktrees() { _vw_dynamic_candidates worktrees }
_vw_complete_use_branches() { _vw_dynamic_candidates use-branches }
_vw_complete_remote_branches() { _vw_dynamic_candidates remote-branches }
_vw_complete_hooks() { _vw_dynamic_candidates hooks }
_vw_complete_managed_worktrees() { _vw_dynamic_candidates managed-worktrees }
"#@
}

fn zsh_helpers_text() -> (text: &'static str)
    ensures
        text@ == zsh_helpers(),
{
    r#"
# Dynamic candidates are emitted as shell-safe TSV by the Rust binary.
_vw_dynamic_candidates() {
  local kind="$1" row value description
  local vw_bin="${words[1]:-vw}"
  local -a values
  command -v "$vw_bin" >/dev/null 2>&1 || return 0
  while IFS=$'\t' read -r value description; do
    [[ -n "$value" ]] || continue
    values+=("${value}:${description}")
  done < <(command "$vw_bin" __complete "$kind" 2>/dev/null)
  (( ${#values} > 0 )) && _describe -t "$kind" "$kind" values
}

_vw_complete_worktrees() { _vw_dynamic_candidates worktrees }
_vw_complete_use_branches() { _vw_dynamic_candidates use-branches }
_vw_complete_remote_branches() { _vw_dynamic_candidates remote-branches }
_vw_complete_hooks() { _vw_dynamic_candidates hooks }
_vw_complete_managed_worktrees() { _vw_dynamic_candidates managed-worktrees }
"#
}

/// The generated zsh script with both binary names, the dynamic candidate functions, and
/// the argument completions wired to them (`use` and `unabsorb` complete branches that can
/// be used rather than worktrees).
pub open spec fn enhance_zsh_spec(generated: Seq<char>) -> Seq<char> {
    let s1 = replace_first(generated, "#compdef vw"@, "#compdef vw vde-worktree"@);
    let s2 = replace_all(s1, "'::branch:_default'"@, "'::branch:_vw_complete_worktrees'"@);
    let s3 = replace_all(s2, "':branch:_default'"@, "':branch:_vw_complete_worktrees'"@);
    let s4 = replace_all(s3, "':remote_branch:_default'"@, "':remote_branch:_vw_complete_remote_branches'"@);
    let s5 = replace_all(s4, "':hook:_default'"@, "':hook:_vw_complete_hooks'"@);
    let s6 = replace_all(s5, "'--from=[]:FROM:_default'"@, "'--from=[]:FROM:_vw_complete_managed_worktrees'"@);
    let s7 = replace_all(s6, "'--to=[]:TO:_default'"@, "'--to=[]:TO:_vw_complete_managed_worktrees'"@);
    let s8 = replace_in_command_spec(s7, "use"@, "':branch:_vw_complete_worktrees'"@, "':branch:_vw_complete_use_branches'"@);
    let s9 = replace_in_command_spec(s8, "unabsorb"@, "':branch:_vw_complete_worktrees'"@, "':branch:_vw_complete_use_branches'"@);
    replace_first(s9, "\n"@, "\n"@ + zsh_helpers() + "\n"@)
}

pub fn enhance_zsh(generated: &str) -> (script: String)
    ensures
        script@ == enhance_zsh_spec(generated@),
{
    proof {
        reveal_strlit("#compdef vw");
        reveal_strlit("'::branch:_default'");
        reveal_strlit("':branch:_default'");
        reveal_strlit("':remote_branch:_default'");
        reveal_strlit("':hook:_default'");
        reveal_strlit("'--from=[]:FROM:_default'");
        reveal_strlit("'--to=[]:TO:_default'");
        reveal_strlit("\n");
    }
    let s1 = replace_first_str(generated, "#compdef vw", "#compdef vw vde-worktree");
    let s2 = replace_str(s1.as_str(), "'::branch:_default'", "'::branch:_vw_complete_worktrees'");
    let s3 = replace_str(s2.as_str(), "':branch:_default'", "':branch:_vw_complete_worktrees'");
    let s4 = replace_str(s3.as_str(), "':remote_branch:_default'", "':remote_branch:_vw_complete_remote_branches'");
    let s5 = replace_str(s4.as_str(), "':hook:_default'", "':hook:_vw_complete_hooks'");
    let s6 = replace_str(s5.as_str(), "'--from=[]:FROM:_default'", "'--from=[]:FROM:_vw_complete_managed_worktrees'");
    let s7 = replace_str(s6.as_str(), "'--to=[]:TO:_default'", "'--to=[]:TO:_vw_complete_managed_worktrees'");
    let s8 = replace_zsh_command_argument(s7.as_str(), "use", "':branch:_vw_complete_worktrees'", "':branch:_vw_complete_use_branches'");
    let s9 = replace_zsh_command_argument(s8.as_str(), "unabsorb", "':branch:_vw_complete_worktrees'", "':branch:_vw_complete_use_branches'");
    let mut insert = String::from_str("\n");
    insert.append(zsh_helpers_text());
    insert.append("\n");
    replace_first_str(s9.as_str(), "\n", insert.as_str())
}

/// `str::lines`: the text split at line feeds, a final empty piece dropped, and a carriage
/// return at the end of each line removed.
pub open spec fn lines_spec(s: Seq<char>) -> Seq<Seq<char>> {
    let pieces = split_on(s, '\n');
    let kept = if pieces.last().len() == 0 {
        pieces.drop_last()
    } else {
        pieces
    };
    kept.map_values(|l: Seq<char>| if l.len() > 0 && l.last() == '\r' {
        l.drop_last()
    } else {
        l
    })
}

/// The lines that complete `vw`, rewritten to complete `vde-worktree`.
pub open spec fn fish_aliases(lines: Seq<Seq<char>>) -> Seq<Seq<char>>
    decreases lines.len(),
{
    if lines.len() == 0 {
        Seq::empty()
    } else {
        let prev = fish_aliases(lines.drop_last());
        let l = lines.last();
        if l.len() >= 15 && l.take(15) == "complete -c vw "@ {
            prev.push("complete -c vde-worktree "@ + l.skip(15))
        } else {
            prev
        }
    }
}

pub open spec fn fish_tail() -> Seq<char> {
    r#"# Dynamic candidates are emitted as shell-safe TSV by the Rust binary.
function __vw_dynamic_candidates
    set -l tokens (commandline -opc)
    set -l vw_bin vw
    if test (count $tokens) -gt 0
        set vw_bin $tokens[1]
    end
    command $vw_bin __complete $argv 2>/dev/null
end

for __vw_bin in vw vde-worktree
    complete -c $__vw_bin -f -n '__fish_seen_subcommand_from status path switch del absorb exec lock unlock' -a '(__vw_dynamic_candidates worktrees)'
    complete -c $__vw_bin -f -n '__fish_seen_subcommand_from use unabsorb' -a '(__vw_dynamic_candidates use-branches)'
    complete -c $__vw_bin -f -n '__fish_seen_subcommand_from get' -a '(__vw_dynamic_candidates remote-branches)'
    complete -c $__vw_bin -f -n '__fish_seen_subcommand_from invoke' -a '(__vw_dynamic_candidates hooks)'
    complete -c $__vw_bin -f -n '__fish_seen_subcommand_from absorb' -l from -a '(__vw_dynamic_candidates managed-worktrees)'
    complete -c $__vw_bin -f -n '__fish_seen_subcommand_from unabsorb' -l to -a '(__vw_dynamic_candidates managed-worktrees)'
end
"#@
}

fn fish_tail_text() -> (text: &'static str)
    ensures
        text@ == fish_tail(),
{
    r#"# Dynamic candidates are emitted as shell-safe TSV by the Rust binary.
function __vw_dynamic_candidates
    set -l tokens (commandline -opc)
    set -l vw_bin vw
    if test (count $tokens) -gt 0
        set vw_bin $tokens[1]
    end
    command $vw_bin __complete $argv 2>/dev/null
end

for __vw_bin in vw vde-worktree
    complete -c $__vw_bin -f -n '__fish_seen_subcommand_from status path switch del absorb exec lock unlock' -a '(__vw_dynamic_candidates worktrees)'
    complete -c $__vw_bin -f -n '__fish_seen_subcommand_from use unabsorb' -a '(__vw_dynamic_candidates use-branches)'
    complete -c $__vw_bin -f -n '__fish_seen_subcommand_from get' -a '(__vw_dynamic_candidates remote-branches)'
    complete -c $__vw_bin -f -n '__fish_seen_subcommand_from invoke' -a '(__vw_dynamic_candidates hooks)'
    complete -c $__vw_bin -f -n '__fish_seen_subcommand_from absorb' -l from -a '(__vw_dynamic_candidates managed-worktrees)'
    complete -c $__vw_bin -f -n '__fish_seen_subcommand_from unabsorb' -l to -a '(__vw_dynamic_candidates managed-worktrees)'
end
"#
}

/// The generated fish script, the same completions for `vde-worktree`, and the dynamic
/// candidate function with its wiring for both binary names.
pub open spec fn enhance_fish_spec(generated: Seq<char>) -> Seq<char> {
    generated + "\n"@ + join_spec(fish_aliases(lines_spec(generated)), "\n"@) + "\n\n"@ + fish_tail()
}

fn split_lines(s: &Vec<char>) -> (pieces: Vec<Vec<char>>)
    ensures
        pieces@.map_values(|p: Vec<char>| p@) == split_on(s@, '\n'),
{
    let mut done: Vec<Vec<char>> = Vec::new();
    let mut current: Vec<char> = Vec::new();
    let mut i: usize = 0;
    assert(s@.take(0) =~= Seq::<char>::empty());
    assert(done@.map_values(|p: Vec<char>| p@).push(current@) =~= split_on(s@.take(0), '\n'));
    while i < s.len()
        invariant
            i <= s@.len(),
            done@.map_values(|p: Vec<char>| p@).push(current@) == split_on(s@.take(i as int), '\n'),
        decreases s.len() - i,
    {
        let ghost prev = done@.map_values(|p: Vec<char>| p@).push(current@);
        assert(s@.take(i + 1).drop_last() =~= s@.take(i as int));
        assert(s@.take(i + 1).last() == s@[i as int]);
        if s[i] == '\n' {
            let finished = current;
            done.push(finished);
            current = Vec::new();
            assert(done@.map_values(|p: Vec<char>| p@).push(current@) =~= prev.push(Seq::empty()));
        } else {
            let ghost before = done@.map_values(|p: Vec<char>| p@);
            current.push(s[i]);
            assert(done@.map_values(|p: Vec<char>| p@) == before);
            assert(done@.map_values(|p: Vec<char>| p@).push(current@) =~= prev.update(
                prev.len() - 1,
                prev.last().push(s@[i as int]),
            ));
        }
        i = i + 1;
    }
    assert(s@.take(s@.len() as int) =~= s@);
    done.push(current);
    done
}

/// `str::lines`, as owned strings.
pub fn text_lines(text: &str) -> (lines: Vec<String>)
    ensures
        lines@.map_values(|l: String| l@) == lines_spec(text@),
{
    let chars = chars_of(text);
    let pieces = split_lines(&chars);
    let ghost pv = pieces@.map_values(|p: Vec<char>| p@);
    proof {
        crate::text::lemma_split_on_nonempty(text@, '\n');
    }
    let count = if pieces[pieces.len() - 1].len() == 0 {
        pieces.len() - 1
    } else {
        pieces.len()
    };
    let ghost kept = if pv.last().len() == 0 {
        pv.drop_last()
    } else {
        pv
    };
    let ghost all = lines_spec(text@);
    assert(kept.len() == count);
    let mut lines: Vec<String> = Vec::new();
    let mut i: usize = 0;
    while i < count
        invariant
            i <= count <= pieces@.len(),
            pv == pieces@.map_values(|p: Vec<char>| p@),
            kept.len() == count,
            forall|j: int| 0 <= j < count ==> kept[j] == pv[j],
            all == kept.map_values(|l: Seq<char>| if l.len() > 0 && l.last() == '\r' {
                l.drop_last()
            } else {
                l
            }),
            lines@.map_values(|l: String| l@) == all.take(i as int),
        decreases count - i,
    {
        let piece = &pieces[i];
        assert(pv[i as int] == piece@);
        let line_len = if piece.len() > 0 && piece[piece.len() - 1] == '\r' {
            piece.len() - 1
        } else {
            piece.len()
        };
        let line = copy_range(piece, 0, line_len);
        assert(line@ == all[i as int]) by {
            if piece@.len() > 0 && piece@.last() == '\r' {
                assert(line@ =~= piece@.drop_last());
            } else {
                assert(line@ =~= piece@);
            }
        }
        let text_line = string_of(&line);
        let ghost before = lines@;
        lines.push(text_line);
        assert(lines@ == before.push(text_line));
        assert(lines@.map_values(|l: String| l@) =~= before.map_values(|l: String| l@).push(text_line@));
        assert(all.take(i + 1) =~= all.take(i as int).push(all[i as int]));
        i = i + 1;
    }
    assert(all.take(count as int) =~= all);
    lines
}

pub fn enhance_fish(generated: &str) -> (script: String)
    ensures
        script@ == enhance_fish_spec(generated@),
{
    let lines = text_lines(generated);
    let ghost all = lines_spec(generated@);
    let mut aliases: Vec<String> = Vec::new();
    let mut i: usize = 0;
    while i < lines.len()
        invariant
            i <= lines@.len(),
            lines@.map_values(|l: String| l@) == all,
            aliases@.map_values(|a: String| a@) == fish_aliases(all.take(i as int)),
        decreases lines.len() - i,
    {
        let line = &lines[i];
        assert(all[i as int] == line@);
        assert(all.take(i + 1).drop_last() =~= all.take(i as int));
        proof {
            reveal_strlit("complete -c vw ");
        }
        if starts_with_str(line.as_str(), "complete -c vw ") {
            let chars = chars_of(line.as_str());
            let rest = copy_range(&chars, 15, chars.len());
            let mut alias = String::from_str("complete -c vde-worktree ");
            alias.append(string_of(&rest).as_str());
            let ghost before = aliases@.map_values(|a: String| a@);
            aliases.push(alias);
            assert(line@.subrange(15, line@.len() as int) =~= line@.skip(15));
            assert(aliases@.map_values(|a: String| a@) =~= before.push("complete -c vde-worktree "@ + all[i as int].skip(15)));
        }
        i = i + 1;
    }
    assert(all.take(lines@.len() as int) =~= all);
    let joined = join_strings(&aliases, "\n");
    let mut script = generated.to_owned();
    script.append("\n");
    script.append(joined.as_str());
    script.append("\n\n");
    script.append(fish_tail_text());
    script
}

// ----- printing and installing -----

/// The generator's output as a script: it must be UTF-8, and is then enhanced for the shell.
pub open spec fn completion_script_ok(shell: CompletionShell, generated: Seq<u8>, result: Result<String, CliError>) -> bool {
    if valid_utf8(generated) {
        result matches Ok(script) && script@ == match shell {
            CompletionShell::Zsh => enhance_zsh_spec(decode_utf8(generated)),
            CompletionShell::Fish => enhance_fish_spec(decode_utf8(generated)),
        }
    } else {
        result matches Err(e) && e.code == ErrorCode::InternalError && e.message@.len() >= 44 && e.message@.take(44)
            == "completion generator produced invalid UTF-8: "@.take(44) && e.details@.len() == 0 && e.execution is None
    }
}

pub fn completion_script(shell: CompletionShell, generated: Vec<u8>) -> (result: Result<String, CliError>)
    ensures
        completion_script_ok(shell, generated@, result),
{
    let text = match utf8_string(generated) {
        Ok(text) => text,
        Err(reason) => {
            let mut message = String::from_str("completion generator produced invalid UTF-8: ");
            message.append(reason.as_str());
            proof {
                reveal_strlit("completion generator produced invalid UTF-8: ");
                assert(message@.take(44) =~= "completion generator produced invalid UTF-8: "@.take(44));
            }
            return Err(CliError::new(ErrorCode::InternalError, message.as_str()));
        },
    };
    match shell {
        CompletionShell::Zsh => Ok(enhance_zsh(text.as_str())),
        CompletionShell::Fish => Ok(enhance_fish(text.as_str())),
    }
}

pub open spec fn shell_name(shell: CompletionShell) -> Seq<char> {
    match shell {
        CompletionShell::Zsh => "zsh"@,
        CompletionShell::Fish => "fish"@,
    }
}

/// Printing a script: its data, and the script itself ending in a line feed.
pub open spec fn printed_ok(shell: CompletionShell, script: Seq<char>, output: CommandOutput) -> bool {
    &&& detail_view(output.data) == DetailView::Object(
        seq![
            ("shell"@, DetailView::Text(shell_name(shell))),
            ("installed"@, DetailView::Bool(false)),
            ("script"@, DetailView::Text(script)),
        ],
    )
    &&& output.human_stdout@ == (if script.len() > 0 && script.last() == '\n' {
        script
    } else {
        script.push('\n')
    })
    &&& output.human_stderr@.len() == 0
    &&& output.partial_error is None
}

/// Whether an install counts as done: unless its cleanup error says it did not commit.
pub open spec fn install_committed(cleanup: Option<CliError>) -> bool {
    match cleanup {
        Some(e) => match detail_of(e.details@, "committed"@) {
            Some(DetailValue::Bool(b)) => b,
            _ => true,
        },
        None => true,
    }
}

/// Installing a script: where it went, whether it is in place, a note for zsh, and any
/// cleanup error as the partial error.
pub open spec fn installed_ok(shell: CompletionShell, destination: Seq<char>, cleanup: Option<CliError>, output: CommandOutput) -> bool {
    let installed = install_committed(cleanup);
    &&& detail_view(output.data) == DetailView::Object(
        seq![
            ("shell"@, DetailView::Text(shell_name(shell))),
            ("installed"@, DetailView::Bool(installed)),
            ("path"@, DetailView::Text(destination)),
        ],
    )
    &&& output.human_stdout@ == (if installed {
        "installed completion: "@ + destination + "\n"@ + (if shell == CompletionShell::Zsh {
            "zsh note: add the directory to fpath, then run `autoload -Uz compinit && compinit`\n"@
        } else {
            Seq::empty()
        })
    } else {
        "completion installation requires recovery: "@ + destination + "\n"@
    })
    &&& output.human_stderr@.len() == 0
    &&& output.partial_error == cleanup
}

/// Writes a completion file in place atomically; a cleanup problem after the file was put in
/// place comes back as `Ok(Some(error))`.
pub trait CompletionInstaller {
    /// Whether the installer may answer `result` when asked to install `content` at
    /// `destination`. One that says nothing of its answers may give any.
    open spec fn install_answer(&self, destination: Seq<char>, content: Seq<u8>, result: Result<Option<CliError>, CliError>) -> bool {
        true
    }

    fn atomic_install(&self, destination: &str, content: &[u8]) -> (result: Result<Option<CliError>, CliError>)
        ensures
            self.install_answer(destination@, content@, result),
    ;
}

fn shell_entries(shell: CompletionShell, second: (&str, DetailValue), third: (&str, DetailValue)) -> (value: DetailValue)
    ensures
        detail_view(value) == DetailView::Object(
            seq![
                ("shell"@, DetailView::Text(shell_name(shell))),
                (second.0@, detail_view(second.1)),
                (third.0@, detail_view(third.1)),
            ],
        ),
{
    let mut entries: Vec<(String, DetailValue)> = Vec::new();
    entries.push(("shell".to_owned(), DetailValue::Text(shell.as_str().to_owned())));
    entries.push((second.0.to_owned(), second.1));
    entries.push((third.0.to_owned(), third.1));
    proof {
        crate::error::lemma_object_view_index(entries@);
        assert(object_view(entries@) =~= seq![
            ("shell"@, DetailView::Text(shell_name(shell))),
            (second.0@, detail_view(second.1)),
            (third.0@, detail_view(third.1)),
        ]);
    }
    DetailValue::Object(entries)
}

/// Where a script is installed: the requested path, else the shell's default under the home
/// directory.
pub open spec fn install_destination(shell: CompletionShell, requested_path: Option<&str>, home: Option<&str>) -> Seq<char> {
    match requested_path {
        Some(p) => p@,
        None => join_path_spec(home->Some_0@, default_install_suffix(shell)),
    }
}

/// `completion`: prints the script, or installs it at the requested path or the shell's
/// default path under the home directory.
pub fn run_completion<I: CompletionInstaller>(
    installer: &I,
    shell: CompletionShell,
    install: bool,
    requested_path: Option<&str>,
    home: Option<&str>,
    script: String,
) -> (result: Result<CommandOutput, CliError>)
    ensures
        !install ==> (result matches Ok(out) && printed_ok(shell, script@, out)),
        install && requested_path is None && home is None ==> (result matches Err(e) && e.code == ErrorCode::InvalidArgument
            && e.message@ == "home directory is unavailable; pass --path explicitly"@),
        install && (requested_path is Some || home is Some) ==> exists|outcome: Result<Option<CliError>, CliError>| #[trigger]
            install_outcome_ok(shell, install_destination(shell, requested_path, home), outcome, result),
        install && (requested_path is Some || home is Some) ==> exists|outcome: Result<Option<CliError>, CliError>| #[trigger]
            install_outcome_ok(shell, install_destination(shell, requested_path, home), outcome, result) && installer.install_answer(
                install_destination(shell, requested_path, home),
                vstd::utf8::encode_utf8(script@),
                outcome,
            ),
{
    proof {
        reveal_strlit("installed completion: ");
        reveal_strlit("completion installation requires recovery: ");
        reveal_strlit("zsh note: add the directory to fpath, then run `autoload -Uz compinit && compinit`\n");
        reveal_strlit("\n");
    }
    if !install {
        let ghost text = script@;
        let mut stdout = script.as_str().to_owned();
        let ends_with_newline = {
            let chars = chars_of(script.as_str());
            chars.len() > 0 && chars[chars.len() - 1] == '\n'
        };
        if !ends_with_newline {
            stdout.append("\n");
            assert(stdout@ =~= text.push('\n'));
        }
        let data = shell_entries(shell, ("installed", DetailValue::Bool(false)), ("script", DetailValue::Text(script)));
        let mut output = CommandOutput::new(data);
        output.human_stdout = stdout;
        return Ok(output);
    }
    let destination = match requested_path {
        Some(path) => path.to_owned(),
        None => match default_install_path(shell, home) {
            Ok(path) => path,
            Err(error) => {
                return Err(error);
            },
        },
    };
    let content = crate::fzf::input_bytes(&script);
    let outcome = installer.atomic_install(destination.as_str(), content.as_slice());
    let ghost o = outcome;
    let ghost where_to = destination@;
    assert(where_to == install_destination(shell, requested_path, home));
    let result = install_output(shell, destination, outcome);
    assert(install_outcome_ok(shell, install_destination(shell, requested_path, home), o, result));
    assert(installer.install_answer(install_destination(shell, requested_path, home), vstd::utf8::encode_utf8(script@), o));
    result
}

/// What an install outcome gives: its error, or the install report.
pub open spec fn install_outcome_ok(shell: CompletionShell, destination: Seq<char>, outcome: Result<Option<CliError>, CliError>, result: Result<CommandOutput, CliError>) -> bool {
    match outcome {
        Err(e) => result == Err::<CommandOutput, CliError>(e),
        Ok(cleanup) => result matches Ok(out) && installed_ok(shell, destination, cleanup, out),
    }
}

pub fn install_output(shell: CompletionShell, destination: String, outcome: Result<Option<CliError>, CliError>) -> (result: Result<CommandOutput, CliError>)
    ensures
        install_outcome_ok(shell, destination@, outcome, result),
{
    proof {
        reveal_strlit("installed completion: ");
        reveal_strlit("completion installation requires recovery: ");
        reveal_strlit("zsh note: add the directory to fpath, then run `autoload -Uz compinit && compinit`\n");
        reveal_strlit("\n");
    }
    let cleanup = match outcome {
        Err(error) => {
            return Err(error);
        },
        Ok(cleanup) => cleanup,
    };
    let installed = match &cleanup {
        Some(error) => match error.detail("committed") {
            Some(DetailValue::Bool(b)) => *b,
            _ => true,
        },
        None => true,
    };
    let mut stdout = if installed {
        String::from_str("installed completion: ")
    } else {
        String::from_str("completion installation requires recovery: ")
    };
    stdout.append(destination.as_str());
    stdout.append("\n");
    if installed && shell == CompletionShell::Zsh {
        stdout.append("zsh note: add the directory to fpath, then run `autoload -Uz compinit && compinit`\n");
    }
    let data = shell_entries(shell, ("installed", DetailValue::Bool(installed)), ("path", DetailValue::Text(destination)));
    let mut output = CommandOutput::new(data);
    output.human_stdout = stdout;
    output.partial_error = cleanup;
    Ok(output)
}

} // verus!
