//! The `cloudflared` program: how it is run, and what its logs hold.

use crate::error::{ErrorKind, Failure, Fault, PunchError};
use crate::text::{chars_of, concat2, outcome, split, split_text, text_of, trim, trimmed};
use std::path::PathBuf;
use vstd::prelude::*;
use vstd::string::*;
use vstd::utf8::*;

verus! {

/// The `cloudflared` program.
#[derive(Debug)]
pub struct Cloudflared {
    path: PathBuf,
}

impl Clone for Cloudflared {
    fn clone(&self) -> (copy: Self)
        ensures
            copy == *self,
    {
        Cloudflared { path: self.path.clone() }
    }
}

/// The text in `bytes`, with a sign of replacement for what is no UTF-8.
pub uninterp spec fn lossy_text(bytes: Seq<u8>) -> Seq<char>;

/// `String::from_utf8_lossy`: the text in the bytes. Where they are UTF-8 it is what they encode.
#[verifier::external_body]
fn decode_lossy(bytes: &Vec<u8>) -> (text: String)
    ensures
        text@ == lossy_text(bytes@),
        valid_utf8(bytes@) ==> text@ == decode_utf8(bytes@),
{
    String::from_utf8_lossy(bytes).into_owned()
}

/// How a program is run: with which arguments, and in a process group of its own or not.
#[derive(Debug, PartialEq, Eq)]
pub struct CommandLine {
    pub arguments: Vec<String>,
    pub own_group: bool,
}

/// The model of [`CommandLine`].
#[verifier::ext_equal]
pub struct CommandView {
    pub arguments: Seq<Seq<char>>,
    pub own_group: bool,
}

impl View for CommandLine {
    type V = CommandView;

    open spec fn view(&self) -> CommandView {
        CommandView { arguments: self.arguments.deep_view(), own_group: self.own_group }
    }
}

impl DeepView for CommandLine {
    type V = CommandView;

    open spec fn deep_view(&self) -> CommandView {
        self@
    }
}

/// How the tunnel with the token `token` is run: in a process group of its own where it is to
/// outlive the terminal.
pub open spec fn run_command(token: Seq<char>, detached: bool) -> CommandView {
    CommandView {
        arguments: seq!["tunnel"@, "--no-autoupdate"@, "run"@, "--token"@, token],
        own_group: detached,
    }
}

/// How the tunnel with the token `token` is run.
pub fn run_tunnel(token: &str, detached: bool) -> (command: CommandLine)
    ensures
        command@ == run_command(token@, detached),
{
    let mut arguments: Vec<String> = Vec::new();
    arguments.push("tunnel".to_owned());
    arguments.push("--no-autoupdate".to_owned());
    arguments.push("run".to_owned());
    arguments.push("--token".to_owned());
    arguments.push(token.to_owned());
    let command = CommandLine { arguments, own_group: detached };
    proof {
        assert(command@ =~= run_command(token@, detached));
    }
    command
}

impl Cloudflared {
    /// Where the program is.
    pub closed spec fn location(self) -> PathBuf {
        self.path
    }

    /// Where the program is.
    pub fn path(&self) -> (path: &PathBuf)
        ensures
            *path == self.location(),
    {
        &self.path
    }

    /// The program, from what came of looking for it: where it is, or why it was not found.
    pub fn detect(found: Result<PathBuf, Vec<String>>) -> (program: Result<Cloudflared, PunchError>)
        ensures
            match found {
                Ok(path) => program matches Ok(p) && p.location() == path,
                Err(causes) => program matches Err(e) && e@ == (Failure {
                    kind: Fault::NoCloudflared,
                    causes: causes.deep_view(),
                }),
            },
    {
        match found {
            Ok(path) => Ok(Cloudflared { path }),
            Err(causes) => Err(PunchError { kind: ErrorKind::NoCloudflared, causes }),
        }
    }

    /// The arguments with which the program tells its version.
    pub fn version_arguments(&self) -> (arguments: Vec<String>)
        ensures
            arguments.deep_view() == seq!["--version"@],
    {
        let mut arguments: Vec<String> = Vec::new();
        arguments.push("--version".to_owned());
        proof {
            assert(arguments.deep_view() =~= seq!["--version"@]);
        }
        arguments
    }

    /// The version of the program, from the bytes that it wrote when it was asked.
    pub fn version(&self, output: Result<Vec<u8>, Vec<String>>) -> (version: Result<
        String,
        PunchError,
    >)
        ensures
            outcome(version) == match output {
                Ok(bytes) => Ok(trimmed(lossy_text(bytes@))),
                Err(causes) => Err(
                    Failure {
                        kind: Fault::Outside("读取 cloudflared 版本失败"@),
                        causes: causes.deep_view(),
                    },
                ),
            },
    {
        match output {
            Ok(bytes) => Ok(trim(decode_lossy(&bytes).as_str())),
            Err(causes) => Err(PunchError::outside("读取 cloudflared 版本失败", causes)),
        }
    }

    /// How the program runs a tunnel behind the scenes.
    pub fn spawn_detached(&self, tunnel_token: &str) -> (command: CommandLine)
        ensures
            command@ == run_command(tunnel_token@, true),
    {
        run_tunnel(tunnel_token, true)
    }

    /// How the program runs a tunnel before the eyes of the user.
    pub fn spawn_foreground(&self, tunnel_token: &str) -> (command: CommandLine)
        ensures
            command@ == run_command(tunnel_token@, false),
    {
        run_tunnel(tunnel_token, false)
    }
}

/// `line` without a carriage return at its end.
pub open spec fn without_return(line: Seq<char>) -> Seq<char> {
    if line.len() > 0 && line.last() == '\r' {
        line.drop_last()
    } else {
        line
    }
}

/// The lines of a text. A line ends with a line feed, or with a carriage return and a line feed;
/// what follows the last line feed is a line where there is something.
pub open spec fn lines_of(contents: Seq<char>) -> Seq<Seq<char>> {
    let pieces = split(contents, '\n');
    let ended = pieces.drop_last().map_values(|line: Seq<char>| without_return(line));
    if pieces.last().len() > 0 {
        ended.push(pieces.last())
    } else {
        ended
    }
}

/// The last `count` lines of a text, or all where there are fewer.
pub open spec fn last_lines_of(contents: Seq<char>, count: nat) -> Seq<Seq<char>> {
    let lines = lines_of(contents);
    if lines.len() <= count {
        lines
    } else {
        lines.skip(lines.len() - count)
    }
}

/// The lines of a text.
pub fn lines(contents: &str) -> (lines: Vec<String>)
    ensures
        lines.deep_view() == lines_of(contents@),
{
    let pieces = split_text(contents, '\n');
    let ghost all = pieces.deep_view();
    proof {
        crate::text::lemma_split_len(contents@, '\n');
        assert(all.len() == pieces@.len());
    }
    let mut lines: Vec<String> = Vec::new();
    let last: usize = pieces.len() - 1;
    let mut i: usize = 0;
    while i < last
        invariant
            i <= last,
            last == pieces@.len() - 1,
            all == pieces.deep_view(),
            lines@.len() == i,
            forall|j: int| 0 <= j < i ==> (#[trigger] lines@[j])@ == without_return(all[j]),
        decreases last - i,
    {
        let chars = chars_of(pieces[i].as_str());
        let line = if chars.len() > 0 && chars[chars.len() - 1] == '\r' {
            let text = text_of(&chars, 0, chars.len() - 1);
            proof {
                assert(text@ =~= chars@.drop_last());
            }
            text
        } else {
            pieces[i].clone()
        };
        lines.push(line);
        i = i + 1;
    }
    let ghost ended = lines.deep_view();
    proof {
        assert(ended =~= all.drop_last().map_values(|line: Seq<char>| without_return(line)));
    }
    if !pieces[last].as_str().is_empty() {
        lines.push(pieces[last].clone());
        proof {
            assert(lines.deep_view() =~= ended.push(all.last()));
        }
    }
    lines
}

/// The last `count` lines of a text.
pub fn last_lines(contents: &str, count: usize) -> (selected: Vec<String>)
    ensures
        selected.deep_view() == last_lines_of(contents@, count as nat),
        selected@.len() == (if count <= lines_of(contents@).len() {
            count as nat
        } else {
            lines_of(contents@).len()
        }),
{
    let all = lines(contents);
    proof {
        assert(all.deep_view().len() == all@.len());
    }
    if all.len() <= count {
        return all;
    }
    let start: usize = all.len() - count;
    let mut selected: Vec<String> = Vec::new();
    let mut i: usize = start;
    while i < all.len()
        invariant
            start <= i <= all@.len(),
            selected@.len() == i - start,
            forall|j: int| 0 <= j < selected@.len() ==> (#[trigger] selected@[j])@ == all@[start + j]@,
        decreases all@.len() - i,
    {
        selected.push(all[i].clone());
        i = i + 1;
    }
    proof {
        assert(selected.deep_view() =~= all.deep_view().skip(start as int));
    }
    selected
}

/// A log that could not be read.
pub open spec fn unreadable_log(path: Seq<char>, causes: Seq<Seq<char>>) -> Failure {
    Failure { kind: Fault::Outside("读取日志文件失败: "@ + path), causes }
}

/// The last lines of the log `contents` at `path`: an error where it holds none.
pub open spec fn tail_of(
    contents: Seq<char>,
    path: Seq<char>,
    count: nat,
) -> Result<Seq<Seq<char>>, Failure> {
    let selected = last_lines_of(contents, count);
    if selected.len() == 0 {
        Err(crate::error::failure(Fault::EmptyLog(path)))
    } else {
        Ok(selected)
    }
}

/// The last `count` lines of the log at `path`, from what came of reading it.
pub fn tail_log_file(
    read: Result<String, Vec<String>>,
    path: &str,
    count: usize,
) -> (selected: Result<Vec<String>, PunchError>)
    ensures
        outcome(selected) == match read {
            Ok(contents) => tail_of(contents@, path@, count as nat),
            Err(causes) => Err(unreadable_log(path@, causes.deep_view())),
        },
{
    match read {
        Ok(contents) => {
            let selected = last_lines(contents.as_str(), count);
            proof {
                assert(selected.deep_view().len() == selected@.len());
            }
            if selected.len() == 0 {
                Err(PunchError::new(ErrorKind::EmptyLog(path.to_owned())))
            } else {
                Ok(selected)
            }
        },
        Err(causes) => Err(
            PunchError::outside(concat2("读取日志文件失败: ", path).as_str(), causes),
        ),
    }
}

/// A log that is being followed: how many bytes of it were shown.
#[derive(Debug, Clone, Copy, PartialEq, Eq, Structural)]
pub struct LogFollower {
    pub seen: usize,
}

/// From which byte on the log `contents` is shown, when `seen` bytes of it were shown: a log
/// that is shorter than that was begun anew.
pub open spec fn shown_from(seen: int, contents: Seq<char>) -> int {
    if encode_utf8(contents).len() < seen {
        0
    } else {
        seen
    }
}

/// The first `count` lines to show of the log at `path`, and how to follow it from there.
pub fn follow_log_file(
    read: Result<String, Vec<String>>,
    path: &str,
    count: usize,
) -> (start: Result<(Vec<String>, LogFollower), PunchError>)
    ensures
        match read {
            Ok(contents) => start matches Ok((selected, follower)) && selected.deep_view()
                == last_lines_of(contents@, count as nat) && follower.seen == encode_utf8(
                contents@,
            ).len(),
            Err(causes) => start matches Err(e) && e@ == unreadable_log(
                path@,
                causes.deep_view(),
            ),
        },
{
    match read {
        Ok(contents) => {
            let selected = last_lines(contents.as_str(), count);
            let seen: usize = contents.as_str().as_bytes().len();
            Ok((selected, LogFollower { seen }))
        },
        Err(causes) => Err(
            PunchError::outside(concat2("读取日志文件失败: ", path).as_str(), causes),
        ),
    }
}

impl LogFollower {
    /// Whether what was shown of the log ends between two characters of `contents`.
    pub fn in_step(&self, contents: &str) -> (yes: bool)
        ensures
            yes == is_char_boundary(
                encode_utf8(contents@),
                shown_from(self.seen as int, contents@),
            ),
    {
        let len: usize = contents.as_bytes().len();
        let from: usize = if len < self.seen {
            0
        } else {
            self.seen
        };
        contents.is_char_boundary(from)
    }

    /// What is new in the log, which holds `contents` now.
    pub fn next(&mut self, contents: &str) -> (part: String)
        requires
            is_char_boundary(
                encode_utf8(contents@),
                shown_from(old(self).seen as int, contents@),
            ),
        ensures
            encode_utf8(part@) == encode_utf8(contents@).skip(
                shown_from(old(self).seen as int, contents@),
            ),
            final(self).seen == encode_utf8(contents@).len(),
    {
        let len: usize = contents.as_bytes().len();
        let from: usize = if len < self.seen {
            0
        } else {
            self.seen
        };
        self.seen = len;
        let (_, rest) = contents.split_at(from);
        let part = rest.to_owned();
        proof {
            assert(encode_utf8(contents@).skip(from as int) =~= encode_utf8(contents@).subrange(
                from as int,
                len as int,
            ));
        }
        part
    }
}

/// The bytes of two texts in a row are the bytes of one after those of the other.
proof fn lemma_encode_concat(a: Seq<char>, b: Seq<char>)
    ensures
        encode_utf8(a + b) == encode_utf8(a) + encode_utf8(b),
    decreases a.len(),
{
    if a.len() == 0 {
        assert(a + b =~= b);
        assert(encode_utf8(a) + encode_utf8(b) =~= encode_utf8(b));
    } else {
        lemma_encode_concat(a.drop_first(), b);
        assert((a + b).drop_first() =~= a.drop_first() + b);
        assert(encode_utf8(a + b) =~= encode_utf8(a) + encode_utf8(b));
    }
}

/// Two texts in a row part between two characters.
proof fn lemma_boundary(a: Seq<char>, b: Seq<char>)
    ensures
        is_char_boundary(encode_utf8(a + b), encode_utf8(a).len() as int),
    decreases a.len(),
{
    encode_utf8_valid_utf8(a + b);
    if a.len() > 0 {
        lemma_boundary(a.drop_first(), b);
        assert((a + b).drop_first() =~= a.drop_first() + b);
        encode_utf8_first_scalar(a + b);
        lemma_encode_concat(a, b);
        assert(pop_first_scalar(encode_utf8(a + b)) =~= encode_utf8((a + b).drop_first()));
    }
}

/// Following a log that only grows shows each piece that is added once, and all of it: after
/// `shown` was shown and `added` was written behind it, what is new is `added`.
pub proof fn following_shows_what_is_added(shown: Seq<char>, added: Seq<char>)
    ensures
        is_char_boundary(
            encode_utf8(shown + added),
            shown_from(encode_utf8(shown).len() as int, shown + added),
        ),
        encode_utf8(shown + added).skip(
            shown_from(encode_utf8(shown).len() as int, shown + added),
        ) == encode_utf8(added),
{
    lemma_encode_concat(shown, added);
    lemma_boundary(shown, added);
    let bytes = encode_utf8(shown) + encode_utf8(added);
    assert(bytes.skip(encode_utf8(shown).len() as int) =~= encode_utf8(added));
}

/// A log that became shorter is shown from its beginning.
pub proof fn shorter_log_is_shown_anew(seen: int, contents: Seq<char>)
    requires
        encode_utf8(contents).len() < seen,
    ensures
        shown_from(seen, contents) == 0,
        is_char_boundary(encode_utf8(contents), shown_from(seen, contents)),
{
    encode_utf8_valid_utf8(contents);
}

/// As many lines are shown as were asked for, or all where there are fewer, and they are the last
/// ones.
pub proof fn tail_is_the_end(contents: Seq<char>, count: nat)
    ensures
        last_lines_of(contents, count).len() == (if count <= lines_of(contents).len() {
            count
        } else {
            lines_of(contents).len()
        }),
        exists|before: Seq<Seq<char>>| #[trigger]
            (before + last_lines_of(contents, count)) == lines_of(contents),
{
    let lines = lines_of(contents);
    let selected = last_lines_of(contents, count);
    if lines.len() <= count {
        assert(Seq::<Seq<char>>::empty() + selected =~= lines);
    } else {
        assert(lines.take(lines.len() - count) + selected =~= lines);
    }
}

/// Whoever asks for more lines is shown the same ones at the end, and no fewer.
pub proof fn longer_tail_ends_the_same(contents: Seq<char>, fewer: nat, more: nat)
    requires
        fewer <= more,
    ensures
        last_lines_of(contents, fewer).len() <= last_lines_of(contents, more).len(),
        last_lines_of(contents, fewer) == last_lines_of(contents, more).skip(
            last_lines_of(contents, more).len() - last_lines_of(contents, fewer).len(),
        ),
{
    assert(last_lines_of(contents, fewer) =~= last_lines_of(contents, more).skip(
        last_lines_of(contents, more).len() - last_lines_of(contents, fewer).len(),
    ));
}

/// A line that is written behind a log becomes its last line, without the line feed that ends it
/// and the carriage return before that; the lines before it stay as they were. What is written
/// without a line feed at its end is a line too.
pub proof fn written_lines_are_read(contents: Seq<char>, line: Seq<char>)
    requires
        !line.contains('\n'),
        contents.len() == 0 || contents.last() == '\n',
    ensures
        lines_of(Seq::empty()).len() == 0,
        lines_of(contents + line.push('\n')) == lines_of(contents).push(
            if line.len() > 0 && line.last() == '\r' {
                line.drop_last()
            } else {
                line
            },
        ),
        line.len() > 0 ==> lines_of(contents + line) == lines_of(contents).push(line),
{
    lemma_ended(contents);
    lemma_split_line(contents, line);
    let whole = contents + line;
    let ended = contents + line.push('\n');
    assert(ended.drop_last() =~= whole);
    assert(ended.last() == '\n');
    let pieces = split(contents, '\n');
    let parts = split(whole, '\n');
    assert(parts.drop_last() =~= pieces.drop_last());
    assert(split(ended, '\n') =~= parts.push(Seq::<char>::empty()));
    assert(split(ended, '\n').drop_last() =~= parts);
    let strip = |piece: Seq<char>| without_return(piece);
    assert(parts =~= pieces.drop_last().push(line));
    assert(parts.map_values(strip) =~= pieces.drop_last().map_values(strip).push(
        without_return(line),
    ));
    assert(lines_of(contents) =~= pieces.drop_last().map_values(strip));
    assert(split(Seq::<char>::empty(), '\n') =~= seq![Seq::<char>::empty()]);
}

/// A text that is empty or ends with a line feed has an empty last piece.
proof fn lemma_ended(contents: Seq<char>)
    requires
        contents.len() == 0 || contents.last() == '\n',
    ensures
        split(contents, '\n').len() > 0,
        split(contents, '\n').last() == Seq::<char>::empty(),
{
    crate::text::lemma_split_len(contents, '\n');
}

/// What is written behind a text without a line feed goes to its last piece.
proof fn lemma_split_line(contents: Seq<char>, line: Seq<char>)
    requires
        !line.contains('\n'),
    ensures
        split(contents + line, '\n') == split(contents, '\n').drop_last().push(
            split(contents, '\n').last() + line,
        ),
    decreases line.len(),
{
    crate::text::lemma_split_len(contents, '\n');
    let pieces = split(contents, '\n');
    if line.len() == 0 {
        assert(contents + line =~= contents);
        assert(pieces.last() + line =~= pieces.last());
        assert(pieces.drop_last().push(pieces.last()) =~= pieces);
    } else {
        let before = line.drop_last();
        assert(!before.contains('\n')) by {
            assert forall|i: int| 0 <= i < before.len() implies before[i] != '\n' by {
                assert(line.contains(line[i]));
            }
        }
        assert(line.contains(line.last()));
        lemma_split_line(contents, before);
        let whole = contents + line;
        assert(whole.drop_last() =~= contents + before);
        assert(whole.last() == line.last());
        let parts = split(contents + before, '\n');
        assert(parts.drop_last() =~= pieces.drop_last());
        assert(parts.last().push(line.last()) =~= pieces.last() + line);
    }
}

/// A tail of a log that has lines is shown, and one without a line is an error that names the log.
pub proof fn empty_log_is_reported(contents: Seq<char>, path: Seq<char>, count: nat)
    ensures
        count > 0 && lines_of(contents).len() > 0 ==> tail_of(contents, path, count) == Ok::<
            Seq<Seq<char>>,
            Failure,
        >(last_lines_of(contents, count)),
        count == 0 || lines_of(contents).len() == 0 ==> tail_of(contents, path, count) == Err::<
            Seq<Seq<char>>,
            Failure,
        >(Failure { kind: Fault::EmptyLog(path), causes: Seq::empty() }),
{
    tail_is_the_end(contents, count);
}

/// A log that cannot be read is named, with the causes.
pub proof fn unreadable_log_is_named(path: Seq<char>, causes: Seq<Seq<char>>)
    ensures
        unreadable_log(path, causes).kind == Fault::Outside("读取日志文件失败: "@ + path),
        unreadable_log(path, causes).causes == causes,
{
}

/// A log that has not become shorter is shown on from where it was shown.
pub proof fn grown_log_is_shown_on(seen: int, contents: Seq<char>)
    requires
        seen <= encode_utf8(contents).len(),
    ensures
        shown_from(seen, contents) == seen,
{
}

/// A tunnel is run with its token as the last argument, never updates itself, and has a process
/// group of its own exactly where it is to outlive the terminal.
pub proof fn tunnel_is_run_with_its_token(token: Seq<char>, detached: bool)
    ensures
        run_command(token, detached).arguments == seq![
            "tunnel"@,
            "--no-autoupdate"@,
            "run"@,
            "--token"@,
            token,
        ],
        run_command(token, detached).own_group == detached,
{
}

} // verus!
