//! Shaping of log text for the UI: tails, hidden legacy lines, and the plan for
//! reading a log file backwards in chunks.
use vstd::prelude::*;
use crate::lines::{
    append_lines, join_lines, join_lines_from, lemma_append_is_join, lemma_split_join, lemma_text_lines_have_no_newline, lines_of,
    lines_view, split_pieces, stripped, text_lines,
};
use crate::text::{chars_of, contains_chars, contains_seq, occurs_at, push_str, string_from_chars};

verus! {

/// The first marker of a removed authentication flow.
pub open spec fn bypass_marker() -> Seq<char> {
    "AUTH_BYPASS"@
}

/// The second marker of a removed authentication flow.
pub open spec fn unlock_bypass_marker() -> Seq<char> {
    "allowing without unlock"@
}

/// A line that mentions a removed authentication flow.
pub open spec fn is_hidden_line(line: Seq<char>) -> bool {
    contains_seq(line, bypass_marker()) || contains_seq(line, unlock_bypass_marker())
}

/// A line that may be shown.
pub open spec fn is_visible_line(line: Seq<char>) -> bool {
    !is_hidden_line(line)
}

/// Log text with every line that mentions a removed authentication flow left out; text
/// that mentions none is returned unchanged.
pub open spec fn filtered_log(data: Seq<char>) -> Seq<char> {
    if !contains_seq(data, bypass_marker()) && !contains_seq(data, unlock_bypass_marker()) {
        data
    } else {
        append_lines(visible_lines(text_lines(data)))
    }
}

/// The lines that may be shown, in order.
pub open spec fn visible_lines(ls: Seq<Seq<char>>) -> Seq<Seq<char>> {
    ls.filter(|l: Seq<char>| is_visible_line(l))
}

proof fn lemma_visible_lines_step(ls: Seq<Seq<char>>, k: int)
    requires
        0 <= k < ls.len(),
    ensures
        visible_lines(ls.take(k + 1)) == if is_visible_line(ls[k]) {
            visible_lines(ls.take(k)).push(ls[k])
        } else {
            visible_lines(ls.take(k))
        },
{
    reveal(Seq::filter);
    assert(ls.take(k + 1).drop_last() =~= ls.take(k));
    assert(ls.take(k + 1).last() == ls[k]);
}

/// Removes lines of removed authentication flows from log views and exports.
pub fn filter_hidden_log_lines(data: &str) -> (r: String)
    ensures
        r@ == filtered_log(data@),
{
    let dv = chars_of(data);
    let n1 = chars_of("AUTH_BYPASS");
    let n2 = chars_of("allowing without unlock");
    if !contains_chars(&dv, &n1) && !contains_chars(&dv, &n2) {
        return string_from_chars(dv.as_slice());
    }
    let ls = lines_of(data);
    let ghost view = lines_view(ls@);
    let mut out: Vec<char> = Vec::new();
    let mut i: usize = 0;
    proof {
        assert(view.take(0) =~= Seq::<Seq<char>>::empty());
    }
    while i < ls.len()
        invariant
            i <= ls.len(),
            view == lines_view(ls@),
            n1@ == bypass_marker(),
            n2@ == unlock_bypass_marker(),
            out@ == append_lines(visible_lines(view.take(i as int))),
        decreases ls.len() - i,
    {
        let line = &ls[i];
        proof {
            assert(view[i as int] == line@);
            lemma_visible_lines_step(view, i as int);
        }
        let hidden = contains_chars(line, &n1) || contains_chars(line, &n2);
        proof {
            assert(hidden == is_hidden_line(line@));
        }
        if !hidden {
            let ghost before = out@;
            if out.len() > 0 {
                out.push('\n');
            }
            let mut j: usize = 0;
            let ghost mid = out@;
            while j < line.len()
                invariant
                    j <= line.len(),
                    out@ == mid + line@.take(j as int),
                decreases line.len() - j,
            {
                out.push(line[j]);
                proof {
                    assert(line@.take(j + 1) =~= line@.take(j as int).push(line@[j as int]));
                }
                j = j + 1;
            }
            proof {
                assert(line@.take(line.len() as int) =~= line@);
                assert(is_visible_line(line@));
                let prev = visible_lines(view.take(i as int));
                assert(visible_lines(view.take(i + 1)) == prev.push(line@));
                assert(prev.push(line@).drop_last() =~= prev);
                assert(before == append_lines(prev));
                if before.len() > 0 {
                    assert(out@ =~= before + seq!['\n'] + line@);
                } else {
                    assert(out@ =~= line@);
                }
            }
        } else {
        }
        i = i + 1;
    }
    proof {
        assert(view.take(ls.len() as int) =~= view);
    }
    string_from_chars(out.as_slice())
}

/// The last `max_lines` lines of `data`, joined with `'\n'`; nothing when `max_lines` is zero.
pub open spec fn tail_text(data: Seq<char>, max_lines: nat) -> Seq<char> {
    if max_lines == 0 {
        Seq::<char>::empty()
    } else {
        let ls = text_lines(data);
        let start = if ls.len() > max_lines { ls.len() - max_lines } else { 0 };
        join_lines(ls.subrange(start as int, ls.len() as int))
    }
}

/// Keeps only the most recent `max_lines` lines of `data`.
pub fn tail_lines(data: &str, max_lines: usize) -> (r: String)
    ensures
        r@ == tail_text(data@, max_lines as nat),
{
    if max_lines == 0 {
        return String::new();
    }
    let ls = lines_of(data);
    let start: usize = if ls.len() > max_lines { ls.len() - max_lines } else { 0 };
    let out = join_lines_from(&ls, start);
    string_from_chars(out.as_slice())
}

/// The requested number of tail lines, or the configured default when none was requested.
pub fn resolve_tail_limit(limit: Option<usize>, default_lines: usize) -> (r: usize)
    ensures
        r == match limit {
            Some(l) => l,
            None => default_lines,
        },
{
    match limit {
        Some(l) => l,
        None => default_lines,
    }
}

/// Why a log file could not be read.
#[derive(Debug)]
pub enum LogReadFailure {
    /// The log file does not exist yet.
    NotFound,
    /// Any other failure, with its rendered description.
    Other(String),
}

/// The error reported when the log file exists but cannot be read.
pub open spec fn log_read_error_message(path_debug: Seq<char>, detail: Seq<char>) -> Seq<char> {
    "gui::api::logs_api::read_log_tail failed to read log file "@ + path_debug + ": "@ + detail
}

/// The log tail shown in the UI, from the outcome of reading the tail of the log file:
/// a missing log file reads as empty, and hidden lines are removed.
pub fn read_log_tail(read: Result<String, LogReadFailure>, path_debug: &str) -> (r: Result<String, String>)
    ensures
        read matches Ok(t) ==> r matches Ok(s) && s@ == filtered_log(t@),
        read matches Err(LogReadFailure::NotFound) ==> r matches Ok(s) && s@ == Seq::<char>::empty(),
        read matches Err(LogReadFailure::Other(d)) ==> r matches Err(m) && m@ == log_read_error_message(path_debug@, d@),
{
    match read {
        Ok(tail) => Ok(filter_hidden_log_lines(tail.as_str())),
        Err(LogReadFailure::NotFound) => {
            let r = filter_hidden_log_lines("");
            proof {
                assert(Seq::<char>::empty().len() == 0);
                assert(!contains_seq(""@, bypass_marker())) by {
                    reveal_strlit("");
                    reveal_strlit("AUTH_BYPASS");
                }
                assert(!contains_seq(""@, unlock_bypass_marker())) by {
                    reveal_strlit("");
                    reveal_strlit("allowing without unlock");
                }
                reveal_strlit("");
            }
            Ok(r)
        },
        Err(LogReadFailure::Other(detail)) => {
            let mut m = String::new();
            push_str(&mut m, "gui::api::logs_api::read_log_tail failed to read log file ");
            push_str(&mut m, path_debug);
            push_str(&mut m, ": ");
            push_str(&mut m, detail.as_str());
            Err(m)
        },
    }
}

/// Progress of reading a file backwards: the start of what has been read, the newlines
/// seen and the bytes read so far.
#[derive(Debug)]
pub struct TailReadState {
    pub pos: u64,
    pub newline_count: u64,
    pub total: u64,
}

impl TailReadState {
    /// Nothing read yet, the read position at the end of the file; the position and the
    /// bytes read always add up to the file length.
    pub open spec fn wf(self, file_len: u64) -> bool {
        &&& self.pos + self.total == file_len
        &&& self.newline_count <= self.total
    }
}

/// The state before any chunk of a `file_len`-byte file is read.
pub fn tail_read_start(file_len: u64) -> (r: TailReadState)
    ensures
        r.wf(file_len),
        r.pos == file_len,
        r.total == 0,
        r.newline_count == 0,
{
    TailReadState { pos: file_len, newline_count: 0, total: 0 }
}

/// Whether another chunk is read: data remains before the read position, no more than
/// `max_lines` newlines were seen, and fewer than `max_bytes` bytes were read.
pub open spec fn wants_more(st: TailReadState, max_lines: nat, max_bytes: nat) -> bool {
    st.pos > 0 && st.newline_count <= max_lines && st.total < max_bytes
}

/// The size of the next chunk: the chunk size (at least one byte), but no more than remains.
pub open spec fn chunk_len(st: TailReadState, read_chunk_bytes: nat) -> nat {
    let want: nat = if read_chunk_bytes == 0 { 1 } else { read_chunk_bytes };
    if want < st.pos { want } else { st.pos as nat }
}

/// The next chunk to read, as an offset and a length, or `None` when reading is done.
pub fn next_tail_chunk(
    st: &TailReadState,
    max_lines: usize,
    read_chunk_bytes: usize,
    max_bytes: u64,
) -> (r: Option<(u64, u64)>)
    ensures
        r is None <==> !wants_more(*st, max_lines as nat, max_bytes as nat),
        r matches Some((off, len)) ==> len == chunk_len(*st, read_chunk_bytes as nat)
            && off + len == st.pos && 1 <= len,
{
    if !(st.pos > 0 && st.newline_count <= max_lines as u64 && st.total < max_bytes) {
        return None;
    }
    let want: u64 = if read_chunk_bytes == 0 { 1 } else { read_chunk_bytes as u64 };
    let take: u64 = if want < st.pos { want } else { st.pos };
    Some((st.pos - take, take))
}

/// The number of newline bytes in a chunk.
pub open spec fn newlines_in(bytes: Seq<u8>) -> nat
    decreases bytes.len(),
{
    if bytes.len() == 0 {
        0
    } else {
        newlines_in(bytes.drop_last()) + if bytes.last() == 10u8 { 1nat } else { 0nat }
    }
}

/// Counts the newline bytes of a chunk.
pub fn count_newlines(bytes: &[u8]) -> (r: u64)
    ensures
        r == newlines_in(bytes@),
        r <= bytes@.len(),
{
    let mut n: u64 = 0;
    let mut i: usize = 0;
    while i < bytes.len()
        invariant
            i <= bytes.len(),
            n == newlines_in(bytes@.take(i as int)),
            n <= i,
        decreases bytes.len() - i,
    {
        proof {
            assert(bytes@.take(i + 1).drop_last() =~= bytes@.take(i as int));
        }
        if bytes[i] == 10u8 {
            n = n + 1;
        }
        i = i + 1;
    }
    proof {
        assert(bytes@.take(bytes.len() as int) =~= bytes@);
    }
    n
}

/// Records a chunk just read from the front of the unread part of the file.
pub fn record_tail_chunk(st: &mut TailReadState, file_len: u64, chunk: &[u8])
    requires
        old(st).wf(file_len),
        chunk@.len() <= old(st).pos,
    ensures
        final(st).wf(file_len),
        final(st).pos == old(st).pos - chunk@.len(),
        final(st).total == old(st).total + chunk@.len(),
        final(st).newline_count == old(st).newline_count + newlines_in(chunk@),
{
    let len = chunk.len() as u64;
    let n = count_newlines(chunk);
    st.pos = st.pos - len;
    st.total = st.total + len;
    st.newline_count = st.newline_count + n;
}

/// The bytes of chunks read back to front, put back in file order.
pub open spec fn chunks_in_file_order(chunks: Seq<Vec<u8>>) -> Seq<u8>
    decreases chunks.len(),
{
    if chunks.len() == 0 {
        Seq::<u8>::empty()
    } else {
        chunks.last()@ + chunks_in_file_order(chunks.drop_last())
    }
}

/// Concatenates chunks that were read from the end of a file towards its start.
pub fn assemble_tail_chunks(chunks: &Vec<Vec<u8>>) -> (r: Vec<u8>)
    ensures
        r@ == chunks_in_file_order(chunks@),
{
    let mut out: Vec<u8> = Vec::new();
    let mut i: usize = chunks.len();
    proof {
        assert(chunks@.subrange(chunks.len() as int, chunks.len() as int) =~= Seq::<Vec<u8>>::empty());
    }
    while i > 0
        invariant
            i <= chunks.len(),
            out@ == chunks_in_file_order(chunks@.subrange(i as int, chunks.len() as int)),
        decreases i,
    {
        let c = &chunks[i - 1];
        let mut j: usize = 0;
        let ghost mid = out@;
        while j < c.len()
            invariant
                j <= c.len(),
                out@ == mid + c@.take(j as int),
            decreases c.len() - j,
        {
            out.push(c[j]);
            proof {
                assert(c@.take(j + 1) =~= c@.take(j as int).push(c@[j as int]));
            }
            j = j + 1;
        }
        proof {
            assert(c@.take(c.len() as int) =~= c@);
            lemma_chunks_order_prepend(chunks@, i as int);
        }
        i = i - 1;
    }
    proof {
        assert(chunks@.subrange(0, chunks.len() as int) =~= chunks@);
    }
    out
}

proof fn lemma_chunks_order_split(chunks: Seq<Vec<u8>>, k: int)
    requires
        0 <= k <= chunks.len(),
    ensures
        chunks_in_file_order(chunks) == chunks_in_file_order(chunks.subrange(k, chunks.len() as int))
            + chunks_in_file_order(chunks.subrange(0, k)),
    decreases chunks.len(),
{
    if k == chunks.len() {
        assert(chunks.subrange(k, chunks.len() as int) =~= Seq::<Vec<u8>>::empty());
        assert(chunks.subrange(0, k) =~= chunks);
        assert(chunks_in_file_order(Seq::<Vec<u8>>::empty()) =~= Seq::<u8>::empty());
        assert(chunks_in_file_order(chunks) =~= Seq::<u8>::empty() + chunks_in_file_order(chunks));
    } else {
        lemma_chunks_order_split(chunks.drop_last(), k);
        assert(chunks.drop_last().subrange(0, k) =~= chunks.subrange(0, k));
        let upper = chunks.subrange(k, chunks.len() as int);
        assert(upper.drop_last() =~= chunks.drop_last().subrange(k, chunks.len() - 1));
        assert(upper.last() == chunks.last());
        assert(chunks_in_file_order(upper) == upper.last()@ + chunks_in_file_order(upper.drop_last()));
        assert(chunks_in_file_order(chunks) =~= chunks_in_file_order(upper) + chunks_in_file_order(chunks.subrange(0, k)));
    }
}

proof fn lemma_chunks_order_prepend(chunks: Seq<Vec<u8>>, i: int)
    requires
        0 < i <= chunks.len(),
    ensures
        chunks_in_file_order(chunks.subrange(i - 1, chunks.len() as int))
            == chunks_in_file_order(chunks.subrange(i, chunks.len() as int)) + chunks[i - 1]@,
{
    let s = chunks.subrange(i - 1, chunks.len() as int);
    lemma_chunks_order_split(s, 1);
    assert(s.subrange(1, s.len() as int) =~= chunks.subrange(i, chunks.len() as int));
    assert(s.subrange(0, 1) =~= seq![chunks[i - 1]]);
    assert(seq![chunks[i - 1]].drop_last() =~= Seq::<Vec<u8>>::empty());
    assert(chunks_in_file_order(Seq::<Vec<u8>>::empty()) == Seq::<u8>::empty());
    assert(seq![chunks[i - 1]].last() == chunks[i - 1]);
    assert(chunks_in_file_order(seq![chunks[i - 1]]) =~= chunks[i - 1]@);
}

/// The kept lines begin and end with a line that is not empty, and none of them ends in
/// `'\r'`: on such lines reading the filtered text back gives the same lines.
pub open spec fn lines_read_back_unchanged(v: Seq<Seq<char>>) -> bool {
    &&& v.len() > 0 ==> v[0].len() > 0 && v.last().len() > 0
    &&& forall|i: int| 0 <= i < v.len() ==> !((#[trigger] v[i]).len() > 0 && v[i].last() == '\r')
}

/// The lines of the filtered text are the data's lines without those that mention a
/// removed authentication flow, in their order. (Where the first or last kept line is
/// empty, or a kept line ends in `'\r'`, reading the text back drops or trims that line,
/// for the original as well, so those inputs are left out.)
pub proof fn lemma_filtered_lines_are_kept_lines(data: Seq<char>)
    requires
        lines_read_back_unchanged(visible_lines(text_lines(data))),
    ensures
        contains_seq(data, bypass_marker()) || contains_seq(data, unlock_bypass_marker()) ==>
            text_lines(filtered_log(data)) == visible_lines(text_lines(data)),
{
    if contains_seq(data, bypass_marker()) || contains_seq(data, unlock_bypass_marker()) {
        let t = text_lines(data);
        let v = visible_lines(t);
        let pred = |l: Seq<char>| is_visible_line(l);
        lemma_text_lines_have_no_newline(data);
        assert forall|i: int, k: int| 0 <= i < v.len() && 0 <= k < v[i].len() implies #[trigger] v[i][k] != '\n' by {
            assert(v.contains(v[i]));
            t.lemma_filter_contains_rev(pred, v[i]);
            let j = choose|j: int| 0 <= j < t.len() && t[j] == v[i];
            assert(t[j][k] != '\n');
        }
        lemma_append_is_join(v);
        assert(filtered_log(data) == append_lines(v));
        if v.len() == 0 {
            assert(split_pieces(Seq::<char>::empty()) =~= seq![Seq::<char>::empty()]);
            assert(stripped(Seq::<Seq<char>>::empty()) =~= Seq::<Seq<char>>::empty());
            assert(text_lines(join_lines(v)) =~= v);
        } else {
            lemma_split_join(v);
            let p = split_pieces(join_lines(v));
            assert(p == v);
            assert forall|i: int| 0 <= i < v.drop_last().len() implies stripped(v.drop_last())[i] == v.drop_last()[i] by {
                assert(v.drop_last()[i] == v[i]);
            }
            assert(stripped(v.drop_last()) =~= v.drop_last());
            assert(v.drop_last().push(v.last()) =~= v);
        }
    }
}

/// The chunks, read back to front, are the bytes of `content` from `pos` to its end: the
/// most recent chunk starts at `pos`, and each earlier chunk continues where the next one
/// ends.
pub open spec fn reads_back_from(content: Seq<u8>, chunks: Seq<Vec<u8>>, pos: int) -> bool
    decreases chunks.len(),
{
    if chunks.len() == 0 {
        pos == content.len()
    } else {
        let l = chunks.last()@;
        &&& 0 <= pos
        &&& pos + l.len() <= content.len()
        &&& l == content.subrange(pos, pos + l.len())
        &&& reads_back_from(content, chunks.drop_last(), pos + l.len())
    }
}

/// Reading the chunk that `next_tail_chunk` names, in front of what was read, keeps the
/// chunks a back-to-front reading of the file.
pub proof fn lemma_next_chunk_extends_reading(content: Seq<u8>, chunks: Seq<Vec<u8>>, pos: int, off: int, chunk: Vec<u8>)
    requires
        reads_back_from(content, chunks, pos),
        0 <= off <= pos,
        chunk@ == content.subrange(off, pos),
    ensures
        reads_back_from(content, chunks.push(chunk), off),
{
    assert(chunks.push(chunk).drop_last() =~= chunks);
    if chunks.len() > 0 {
        assert(pos + chunks.last()@.len() <= content.len());
    }
    lemma_reading_stays_in_file(content, chunks, pos);
}

proof fn lemma_reading_stays_in_file(content: Seq<u8>, chunks: Seq<Vec<u8>>, pos: int)
    requires
        reads_back_from(content, chunks, pos),
    ensures
        0 <= pos <= content.len(),
    decreases chunks.len(),
{
    if chunks.len() > 0 {
        lemma_reading_stays_in_file(content, chunks.drop_last(), pos + chunks.last()@.len());
    }
}

/// Whatever the chunk size, chunks read back to front reassemble into exactly the file's
/// bytes from the read position on.
pub proof fn lemma_backward_reads_give_file_suffix(content: Seq<u8>, chunks: Seq<Vec<u8>>, pos: int)
    requires
        reads_back_from(content, chunks, pos),
    ensures
        chunks_in_file_order(chunks) == content.subrange(pos, content.len() as int),
    decreases chunks.len(),
{
    if chunks.len() == 0 {
        assert(content.subrange(pos, content.len() as int) =~= Seq::<u8>::empty());
    } else {
        let l = chunks.last()@;
        lemma_backward_reads_give_file_suffix(content, chunks.drop_last(), pos + l.len());
        lemma_reading_stays_in_file(content, chunks.drop_last(), pos + l.len());
        assert(content.subrange(pos, content.len() as int) =~= l + content.subrange(pos + l.len(), content.len() as int));
    }
}

/// Once the reading has reached the start of the file, the tail shown is the tail of the
/// whole file.
pub proof fn lemma_whole_file_read_gives_its_tail(content: Seq<u8>, chunks: Seq<Vec<u8>>, max_lines: nat)
    requires
        reads_back_from(content, chunks, 0),
    ensures
        tail_text(lossy_utf8(chunks_in_file_order(chunks)), max_lines) == tail_text(lossy_utf8(content), max_lines),
{
    lemma_backward_reads_give_file_suffix(content, chunks, 0);
    assert(content.subrange(0, content.len() as int) =~= content);
}

/// A file of at most `max_bytes` bytes whose read part holds at most `max_lines` newlines is
/// read to its start before the reading stops.
pub proof fn lemma_small_file_is_read_whole(st: TailReadState, file_len: u64, max_lines: nat, max_bytes: nat)
    requires
        st.wf(file_len),
        !wants_more(st, max_lines, max_bytes),
        file_len <= max_bytes,
        st.newline_count <= max_lines,
    ensures
        st.pos == 0,
{
}

/// What `String::from_utf8_lossy` makes of a byte sequence (invalid sequences become
/// U+FFFD); the decoding rules are std's.
pub uninterp spec fn lossy_utf8(bytes: Seq<u8>) -> Seq<char>;

/// `String::from_utf8_lossy(bytes).to_string()`: the text of `bytes`, where valid UTF-8
/// decodes to exactly its characters. How invalid sequences are replaced is left to the name.
#[verifier::external_body]
fn utf8_lossy(bytes: &[u8]) -> (r: String)
    ensures
        r@ == lossy_utf8(bytes@),
        vstd::utf8::valid_utf8(bytes@) ==> r@ == vstd::utf8::decode_utf8(bytes@),
{
    String::from_utf8_lossy(bytes).into_owned()
}

/// The tail shown from chunks read back to front: reassembled, decoded, and cut to the
/// last `max_lines` lines.
pub fn tail_from_chunks(chunks: &Vec<Vec<u8>>, max_lines: usize) -> (r: String)
    ensures
        r@ == tail_text(lossy_utf8(chunks_in_file_order(chunks@)), max_lines as nat),
{
    let bytes = assemble_tail_chunks(chunks);
    let text = utf8_lossy(bytes.as_slice());
    tail_lines(text.as_str(), max_lines)
}

proof fn lemma_no_newline_in_markers()
    ensures
        forall|k: int| 0 <= k < bypass_marker().len() ==> bypass_marker()[k] != '\n',
        forall|k: int| 0 <= k < unlock_bypass_marker().len() ==> unlock_bypass_marker()[k] != '\n',
        bypass_marker().len() > 0,
        unlock_bypass_marker().len() > 0,
{
    reveal_strlit("AUTH_BYPASS");
    reveal_strlit("allowing without unlock");
}

/// A needle without newlines that occurs in none of the lines does not occur in the lines
/// appended with newlines between them.
proof fn lemma_append_lines_avoids(ls: Seq<Seq<char>>, needle: Seq<char>)
    requires
        needle.len() > 0,
        forall|k: int| 0 <= k < needle.len() ==> needle[k] != '\n',
        forall|j: int| 0 <= j < ls.len() ==> !contains_seq(#[trigger] ls[j], needle),
    ensures
        !contains_seq(append_lines(ls), needle),
    decreases ls.len(),
{
    if ls.len() > 0 {
        let front = ls.drop_last();
        assert forall|j: int| 0 <= j < front.len() implies !contains_seq(#[trigger] front[j], needle) by {
            assert(front[j] == ls[j]);
        }
        lemma_append_lines_avoids(front, needle);
        let a = append_lines(front);
        let last = ls.last();
        assert(!contains_seq(last, needle)) by {
            assert(last == ls[ls.len() - 1]);
        }
        if a.len() > 0 {
            let full = a + seq!['\n'] + last;
            assert forall|i: int| !occurs_at(full, needle, i) by {
                if occurs_at(full, needle, i) {
                    let n = needle.len() as int;
                    if i + n <= a.len() {
                        assert(full.subrange(i, i + n) =~= a.subrange(i, i + n));
                        assert(occurs_at(a, needle, i));
                    } else if i >= a.len() + 1 {
                        let j = i - a.len() - 1;
                        assert(full.subrange(i, i + n) =~= last.subrange(j, j + n));
                        assert(occurs_at(last, needle, j));
                    } else {
                        let k = a.len() - i;
                        assert(full[a.len() as int] == '\n');
                        assert(full.subrange(i, i + n)[k] == full[a.len() as int]);
                        assert(needle[k] == '\n');
                    }
                }
            }
        }
    }
}

/// Text shown in log views and exports never mentions a removed authentication flow.
pub proof fn lemma_filtered_log_has_no_markers(data: Seq<char>)
    ensures
        !contains_seq(filtered_log(data), bypass_marker()),
        !contains_seq(filtered_log(data), unlock_bypass_marker()),
{
    lemma_no_newline_in_markers();
    if contains_seq(data, bypass_marker()) || contains_seq(data, unlock_bypass_marker()) {
        let kept = visible_lines(text_lines(data));
        assert forall|j: int| 0 <= j < kept.len() implies !contains_seq(#[trigger] kept[j], bypass_marker())
            && !contains_seq(kept[j], unlock_bypass_marker()) by {
            text_lines(data).lemma_filter_pred(|l: Seq<char>| is_visible_line(l), j);
        }
        lemma_append_lines_avoids(kept, bypass_marker());
        lemma_append_lines_avoids(kept, unlock_bypass_marker());
    }
}

/// Filtering is idempotent: filtered text passes through a second filter unchanged.
pub proof fn lemma_filtered_log_idempotent(data: Seq<char>)
    ensures
        filtered_log(filtered_log(data)) == filtered_log(data),
{
    lemma_filtered_log_has_no_markers(data);
}

} // verus!
