use vstd::prelude::*;

use crate::error::MercurialErr;
use crate::file_status::FileStatus;
use crate::mercurial_file::{lemma_line_round_trip, parse_line, render_line, FileEntry, MercurialFile};
use vstd::utf8::{decode_utf8, valid_utf8};

verus! {

/// The pieces of `s` between newline characters, in order. A text with `k`
/// newlines has `k + 1` pieces; a trailing newline leaves an empty last piece.
pub open spec fn split_lines(s: Seq<char>) -> Seq<Seq<char>>
    decreases s.len(),
{
    if s.len() == 0 {
        seq![Seq::empty()]
    } else {
        let ls = split_lines(s.drop_last());
        if s.last() == '\n' {
            ls.push(Seq::empty())
        } else {
            ls.update(ls.len() - 1, ls.last().push(s.last()))
        }
    }
}

/// The entries of a sequence of status lines, in order. Empty lines are
/// skipped; any other line that fails to parse makes the whole sequence fail.
pub open spec fn parse_lines(ls: Seq<Seq<char>>) -> Result<Seq<FileEntry>, MercurialErr>
    decreases ls.len(),
{
    if ls.len() == 0 {
        Ok(Seq::empty())
    } else {
        match parse_lines(ls.drop_last()) {
            Err(e) => Err(e),
            Ok(es) => if ls.last().len() == 0 {
                Ok(es)
            } else {
                match parse_line(ls.last()) {
                    Ok(e) => Ok(es.push(e)),
                    Err(e) => Err(e),
                }
            },
        }
    }
}

/// The snapshot that a status capture, read as text, stands for.
pub open spec fn parse_capture(s: Seq<char>) -> Result<Seq<FileEntry>, MercurialErr> {
    parse_lines(split_lines(s))
}

/// What a vector of parsed files holds.
pub open spec fn entries_of(files: Seq<MercurialFile>) -> Seq<FileEntry> {
    files.map_values(|f: MercurialFile| f@)
}

proof fn lemma_split_lines_nonempty(s: Seq<char>)
    ensures
        split_lines(s).len() >= 1,
    decreases s.len(),
{
    if s.len() > 0 {
        lemma_split_lines_nonempty(s.drop_last());
    }
}

proof fn lemma_split_lines_append_plain(x: Seq<char>, y: Seq<char>)
    requires
        !y.contains('\n'),
    ensures
        split_lines(x + y) == split_lines(x).update(
            split_lines(x).len() - 1,
            split_lines(x).last() + y,
        ),
    decreases y.len(),
{
    lemma_split_lines_nonempty(x);
    let t = split_lines(x);
    if y.len() == 0 {
        assert(x + y =~= x);
        assert(t.last() + y =~= t.last());
        assert(t.update(t.len() - 1, t.last() + y) =~= t);
    } else {
        let y1 = y.drop_last();
        assert(!y1.contains('\n')) by {
            if y1.contains('\n') {
                let k = choose|k: int| 0 <= k < y1.len() && y1[k] == '\n';
                assert(y[k] == '\n');
            }
        }
        lemma_split_lines_append_plain(x, y1);
        assert((x + y).drop_last() =~= x + y1);
        assert(y.last() != '\n') by {
            assert(y[y.len() - 1] == y.last());
        }
        assert((x + y).last() == y.last());
        assert((t.last() + y1).push(y.last()) =~= t.last() + y);
        assert(split_lines(x + y) =~= t.update(t.len() - 1, t.last() + y));
    }
}

/// The lines of a capture rendered from `es`, without their newlines.
pub open spec fn rendered_lines(es: Seq<FileEntry>) -> Seq<Seq<char>> {
    es.map_values(|e: FileEntry| render_line(e))
}

/// The capture that `hg status` prints for a snapshot: one line per entry,
/// each ended by a newline.
pub open spec fn render_capture(es: Seq<FileEntry>) -> Seq<char>
    decreases es.len(),
{
    if es.len() == 0 {
        Seq::empty()
    } else {
        render_capture(es.drop_last()) + render_line(es.last()) + seq!['\n']
    }
}

proof fn lemma_split_render(es: Seq<FileEntry>)
    requires
        forall|i: int| 0 <= i < es.len() ==> (#[trigger] es[i]).status != FileStatus::Directory,
        forall|i: int| 0 <= i < es.len() ==> !(#[trigger] es[i]).path.contains('\n'),
    ensures
        split_lines(render_capture(es)) == rendered_lines(es).push(Seq::empty()),
    decreases es.len(),
{
    if es.len() == 0 {
        assert(rendered_lines(es).push(Seq::empty()) =~= seq![Seq::<char>::empty()]);
    } else {
        let es1 = es.drop_last();
        let e = es.last();
        lemma_split_render(es1);
        let r1 = render_capture(es1);
        let line = render_line(e);
        assert(!line.contains('\n')) by {
            assert(!es[es.len() - 1].path.contains('\n'));
            assert(es[es.len() - 1].status != FileStatus::Directory);
            if line.contains('\n') {
                let k = choose|k: int| 0 <= k < line.len() && line[k] == '\n';
                if k >= 2 {
                    assert(e.path[k - 2] == '\n');
                }
            }
        }
        lemma_split_lines_append_plain(r1, line);
        let s1 = split_lines(r1 + line);
        assert(Seq::<char>::empty() + line =~= line);
        assert(s1 =~= rendered_lines(es1).push(line));
        assert((r1 + line + seq!['\n']).drop_last() =~= r1 + line);
        assert(rendered_lines(es1).push(line) =~= rendered_lines(es));
    }
}

proof fn lemma_parse_rendered(es: Seq<FileEntry>)
    requires
        forall|i: int| 0 <= i < es.len() ==> (#[trigger] es[i]).status != FileStatus::Directory,
    ensures
        parse_lines(rendered_lines(es)) == Ok::<Seq<FileEntry>, MercurialErr>(es),
    decreases es.len(),
{
    if es.len() == 0 {
        assert(rendered_lines(es).len() == 0);
        assert(es =~= Seq::<FileEntry>::empty());
    } else {
        let es1 = es.drop_last();
        lemma_parse_rendered(es1);
        let ls = rendered_lines(es);
        assert(ls.drop_last() =~= rendered_lines(es1));
        assert(es[es.len() - 1].status != FileStatus::Directory);
        lemma_line_round_trip(es.last());
        assert(ls.last() == render_line(es.last()));
        assert(es1.push(es.last()) =~= es);
    }
}

/// Rendering a snapshot as `hg status` prints it and parsing the capture
/// back gives exactly the same entries, in the same order: one entry per
/// line, for every mix of reported statuses.
pub proof fn lemma_capture_round_trip(es: Seq<FileEntry>)
    requires
        forall|i: int| 0 <= i < es.len() ==> (#[trigger] es[i]).status != FileStatus::Directory,
        forall|i: int| 0 <= i < es.len() ==> !(#[trigger] es[i]).path.contains('\n'),
    ensures
        parse_capture(render_capture(es)) == Ok::<Seq<FileEntry>, MercurialErr>(es),
{
    lemma_split_render(es);
    lemma_parse_rendered(es);
    let ls = rendered_lines(es).push(Seq::empty());
    assert(ls.drop_last() =~= rendered_lines(es));
}

/// Parses one more line onto the files parsed so far.
fn push_line(files: &mut Vec<MercurialFile>, failed: bool, line: &str, Ghost(done): Ghost<
    Seq<Seq<char>>,
>) -> (now_failed: bool)
    requires
        failed ==> parse_lines(done) == Err::<Seq<FileEntry>, MercurialErr>(
            MercurialErr::UnknownStatusCode,
        ),
        !failed ==> parse_lines(done) == Ok::<Seq<FileEntry>, MercurialErr>(entries_of(old(files)@)),
    ensures
        now_failed ==> parse_lines(done.push(line@)) == Err::<Seq<FileEntry>, MercurialErr>(
            MercurialErr::UnknownStatusCode,
        ),
        !now_failed ==> parse_lines(done.push(line@)) == Ok::<Seq<FileEntry>, MercurialErr>(
            entries_of(final(files)@),
        ),
{
    let ghost all = done.push(line@);
    assert(all.drop_last() =~= done);
    if failed || line.is_empty() {
        return failed;
    }
    match MercurialFile::from_line(line) {
        Ok(f) => {
            files.push(f);
            assert(entries_of(files@) =~= entries_of(old(files)@).push(f@));
            false
        },
        Err(_) => true,
    }
}

proof fn lemma_split_lines_first(a: Seq<char>, b: Seq<char>)
    requires
        !a.contains('\n'),
    ensures
        split_lines(a + seq!['\n'] + b) == seq![a] + split_lines(b),
    decreases b.len(),
{
    lemma_split_lines_append_plain(Seq::empty(), a);
    assert(Seq::<char>::empty() + a =~= a);
    assert(split_lines(a) =~= seq![a]);
    lemma_split_lines_nonempty(b);
    let s = a + seq!['\n'] + b;
    if b.len() == 0 {
        assert(s.drop_last() =~= a);
        assert(s + b =~= s);
        assert(split_lines(s) =~= seq![a] + split_lines(b));
    } else {
        let b1 = b.drop_last();
        lemma_split_lines_first(a, b1);
        lemma_split_lines_nonempty(b1);
        assert(s.drop_last() =~= a + seq!['\n'] + b1);
        assert(s.last() == b.last());
        if b.last() == '\n' {
            assert(split_lines(s) =~= seq![a] + split_lines(b));
        } else {
            let t = split_lines(b1);
            assert((seq![a] + t).update(t.len() as int, t.last().push(b.last())) =~= seq![a]
                + t.update(t.len() - 1, t.last().push(b.last())));
            assert(split_lines(s) =~= seq![a] + split_lines(b));
        }
    }
}

/// Relies on `str::split_once` with a `char` pattern: it splits at the first
/// newline, which is left out of both halves, or finds none.
#[verifier::external_body]
fn split_first_line<'a>(s: &'a str) -> (r: Option<(&'a str, &'a str)>)
    ensures
        r matches Some(p) ==> s@ == p.0@ + seq!['\n'] + p.1@ && !p.0@.contains('\n'),
        r is None ==> !s@.contains('\n'),
{
    s.split_once('\n')
}

/// Parses the text of a status capture into its entries, one for each
/// non-empty line, in order.
pub fn parse_status_text(text: &str) -> (r: Result<Vec<MercurialFile>, MercurialErr>)
    ensures
        match parse_capture(text@) {
            Ok(es) => r matches Ok(v) && entries_of(v@) == es,
            Err(e) => r == Err::<Vec<MercurialFile>, MercurialErr>(e),
        },
{
    let mut files: Vec<MercurialFile> = Vec::new();
    let mut failed = false;
    let mut rest: &str = text;
    let ghost mut done: Seq<Seq<char>> = Seq::empty();
    proof {
        assert(split_lines(text@) =~= done + split_lines(text@));
        assert(entries_of(files@) =~= Seq::<FileEntry>::empty());
    }
    loop
        invariant_except_break
            split_lines(text@) == done + split_lines(rest@),
        invariant
            failed ==> parse_lines(done) == Err::<Seq<FileEntry>, MercurialErr>(
                MercurialErr::UnknownStatusCode,
            ),
            !failed ==> parse_lines(done) == Ok::<Seq<FileEntry>, MercurialErr>(
                entries_of(files@),
            ),
        ensures
            split_lines(text@) == done,
        decreases rest@.len(),
    {
        match split_first_line(rest) {
            Some((line, tail)) => {
                proof {
                    lemma_split_lines_first(line@, tail@);
                    assert(done + split_lines(rest@) =~= done.push(line@) + split_lines(tail@));
                }
                failed = push_line(&mut files, failed, line, Ghost(done));
                proof {
                    done = done.push(line@);
                }
                rest = tail;
            },
            None => {
                proof {
                    lemma_split_lines_append_plain(Seq::empty(), rest@);
                    assert(Seq::<char>::empty() + rest@ =~= rest@);
                    assert(split_lines(rest@) =~= seq![rest@]);
                    assert(split_lines(text@) =~= done.push(rest@));
                }
                failed = push_line(&mut files, failed, rest, Ghost(done));
                proof {
                    done = done.push(rest@);
                }
                break;
            },
        }
    }
    if failed {
        Err(MercurialErr::UnknownStatusCode)
    } else {
        Ok(files)
    }
}

/// The snapshot that a raw status capture stands for: its bytes must be
/// valid UTF-8, and the text they spell is then parsed line by line.
pub open spec fn capture_result(bytes: Seq<u8>) -> Result<Seq<FileEntry>, MercurialErr> {
    if valid_utf8(bytes) {
        parse_capture(decode_utf8(bytes))
    } else {
        Err(MercurialErr::RepoWithError)
    }
}

proof fn lemma_parse_lines_no_directory(ls: Seq<Seq<char>>)
    ensures
        parse_lines(ls) matches Ok(es) ==> forall|i: int|
            0 <= i < es.len() ==> (#[trigger] es[i]).status != FileStatus::Directory,
    decreases ls.len(),
{
    if ls.len() > 0 {
        lemma_parse_lines_no_directory(ls.drop_last());
    }
}

/// No snapshot records an entry as a `Directory`: that status only ever
/// comes out of a query.
pub proof fn lemma_snapshot_has_no_directory(bytes: Seq<u8>)
    ensures
        capture_result(bytes) matches Ok(es) ==> forall|i: int|
            0 <= i < es.len() ==> (#[trigger] es[i]).status != FileStatus::Directory,
{
    if valid_utf8(bytes) {
        lemma_parse_lines_no_directory(split_lines(decode_utf8(bytes)));
    }
}

/// Relies on `std::str::from_utf8`: it accepts exactly the byte strings that
/// are valid UTF-8, and then returns the characters they encode.
#[verifier::external_body]
fn text_of_bytes(bytes: &[u8]) -> (r: Option<&str>)
    ensures
        r is Some <==> valid_utf8(bytes@),
        r matches Some(s) ==> s@ == decode_utf8(bytes@),
{
    std::str::from_utf8(bytes).ok()
}

/// Parses the raw bytes of a status capture into its entries.
pub fn parse_status_capture(bytes: &[u8]) -> (r: Result<Vec<MercurialFile>, MercurialErr>)
    ensures
        match capture_result(bytes@) {
            Ok(es) => r matches Ok(v) && entries_of(v@) == es,
            Err(e) => r == Err::<Vec<MercurialFile>, MercurialErr>(e),
        },
{
    match text_of_bytes(bytes) {
        Some(text) => parse_status_text(text),
        None => Err(MercurialErr::RepoWithError),
    }
}

} // verus!
