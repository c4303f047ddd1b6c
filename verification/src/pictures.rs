//! Picking the picture to use from a directory: the newest `*.png` or
//! `*.jpg` file.

use crate::text::{chars_of, lemma_split_pieces_shape, split_pieces};
use vstd::prelude::*;

verus! {

/// What `name.split('.').last()` yields: the text after the last `.`, or the
/// whole name when it has none.
pub open spec fn extension(name: Seq<char>) -> Seq<char> {
    split_pieces(name, '.').last()
}

/// A name taken for a picture (`*.png` or `*.jpg`): it holds a `.`, and
/// the text after its last `.` is `png` or `jpg`.
pub open spec fn is_picture_name_spec(name: Seq<char>) -> bool {
    &&& name.contains('.')
    &&& (extension(name) == seq!['p', 'n', 'g'] || extension(name) == seq!['j', 'p', 'g'])
}

proof fn lemma_last_piece(s: Seq<char>, sep: char, start: int)
    requires
        0 <= start <= s.len(),
        start == 0 || s[start - 1] == sep,
        forall|k: int| start <= k < s.len() ==> s[k] != sep,
    ensures
        split_pieces(s, sep).last() == s.subrange(start, s.len() as int),
    decreases s.len(),
{
    lemma_split_pieces_shape(s.drop_last(), sep);
    if s.len() == start {
        assert(s.subrange(start, s.len() as int) =~= Seq::<char>::empty());
        if start > 0 {
            assert(s.last() == sep);
        }
    } else {
        let t = s.drop_last();
        assert forall|k: int| start <= k < t.len() implies t[k] != sep by {
            assert(t[k] == s[k]);
        }
        if start > 0 {
            assert(t[start - 1] == s[start - 1]);
        }
        lemma_last_piece(t, sep, start);
        assert(s.subrange(start, s.len() as int) =~= t.subrange(start, t.len() as int).push(
            s.last(),
        ));
    }
}

/// Whether a file name is taken for a picture (`*.png` or `*.jpg`).
pub fn is_picture_name(name: &str) -> (b: bool)
    ensures
        b == is_picture_name_spec(name@),
{
    let chars = chars_of(name);
    let n = chars.len();
    let mut start: usize = n;
    while start > 0 && chars[start - 1] != '.'
        invariant
            start <= n == chars@.len(),
            forall|k: int| start <= k < n ==> chars@[k] != '.',
        decreases start,
    {
        start = start - 1;
    }
    proof {
        lemma_last_piece(chars@, '.', start as int);
    }
    let ghost ext = chars@.subrange(start as int, n as int);
    assert(ext == extension(name@));
    if start == 0 {
        assert(!name@.contains('.')) by {
            if name@.contains('.') {
                let k = choose|k: int| 0 <= k < name@.len() && name@[k] == '.';
                assert(chars@[k] == '.');
            }
        }
        return false;
    }
    assert(name@[start - 1] == '.');
    assert(name@.contains('.'));
    if n - start != 3 {
        assert(ext.len() != 3);
        return false;
    }
    let a = chars[start];
    let b = chars[start + 1];
    let c = chars[start + 2];
    assert(ext[0] == a && ext[1] == b && ext[2] == c);
    let png = a == 'p' && b == 'n' && c == 'g';
    let jpg = a == 'j' && b == 'p' && c == 'g';
    if png {
        assert(ext =~= seq!['p', 'n', 'g']);
    }
    if jpg {
        assert(ext =~= seq!['j', 'p', 'g']);
    }
    png || jpg
}

/// The positions, in order, of the directory entries that are files with a
/// picture name; an entry is a name and whether it is a plain file.
pub fn picture_candidates(entries: &Vec<(String, bool)>) -> (chosen: Vec<usize>)
    ensures
        forall|a: int, b: int|
            0 <= a < b < chosen@.len() ==> #[trigger] chosen@[a] < #[trigger] chosen@[b],
        forall|a: int| 0 <= a < chosen@.len() ==> #[trigger] chosen@[a] < entries@.len(),
        forall|i: int|
            0 <= i < entries@.len() ==> (chosen@.contains(i as usize) <==> (#[trigger] entries@[i]).1
                && is_picture_name_spec(entries@[i].0@)),
{
    let mut chosen: Vec<usize> = Vec::new();
    for i in 0..entries.len()
        invariant
            forall|a: int, b: int|
                0 <= a < b < chosen@.len() ==> #[trigger] chosen@[a] < #[trigger] chosen@[b],
            forall|a: int| 0 <= a < chosen@.len() ==> #[trigger] chosen@[a] < i,
            forall|k: int|
                0 <= k < i ==> (chosen@.contains(k as usize) <==> (#[trigger] entries@[k]).1
                    && is_picture_name_spec(entries@[k].0@)),
    {
        let ghost before = chosen@;
        let take = entries[i].1 && is_picture_name(entries[i].0.as_str());
        if take {
            chosen.push(i);
        }
        assert forall|k: int| 0 <= k < i + 1 implies (chosen@.contains(k as usize) <==> (
        #[trigger] entries@[k]).1 && is_picture_name_spec(entries@[k].0@)) by {
            if chosen@.contains(k as usize) {
                let a = choose|a: int| 0 <= a < chosen@.len() && chosen@[a] == k as usize;
                if a < before.len() {
                    assert(before[a] == k as usize);
                    assert(before.contains(k as usize));
                }
            }
            if k < i && before.contains(k as usize) {
                let a = choose|a: int| 0 <= a < before.len() && before[a] == k as usize;
                assert(chosen@[a] == k as usize);
            }
            if k == i && take {
                assert(chosen@[before.len() as int] == k as usize);
            }
        }
    }
    chosen
}

/// `i` is the position of the newest time in `times`, the first one among
/// equally new ones.
pub open spec fn is_newest(times: Seq<i128>, i: int) -> bool {
    &&& 0 <= i < times.len()
    &&& forall|j: int| 0 <= j < times.len() ==> #[trigger] times[j] <= times[i]
    &&& forall|j: int| 0 <= j < i ==> #[trigger] times[j] < times[i]
}

/// The position of the newest of the modification times (the first among
/// equally new ones), or `None` when there is none; the times count
/// nanoseconds from the Unix epoch.
pub fn newest(times: &Vec<i128>) -> (r: Option<usize>)
    ensures
        r is None <==> times@.len() == 0,
        r matches Some(i) ==> is_newest(times@, i as int),
{
    if times.len() == 0 {
        return None;
    }
    let mut best: usize = 0;
    for i in 1..times.len()
        invariant
            1 <= times@.len(),
            best < i <= times@.len(),
            forall|j: int| 0 <= j < i ==> #[trigger] times@[j] <= times@[best as int],
            forall|j: int| 0 <= j < best ==> #[trigger] times@[j] < times@[best as int],
    {
        if times[i] > times[best] {
            best = i;
        }
    }
    Some(best)
}

/// The error printed when the picture directory cannot be read.
pub fn dir_unreadable_message() -> (m: &'static str)
    ensures
        m@ == "遍历文件夹失败！"@,
{
    "遍历文件夹失败！"
}

/// The error printed when the picture directory holds no picture.
pub fn no_picture_message() -> (m: &'static str)
    ensures
        m@ == "文件夹下没有图片！（只支持 `*.png` 文件或 `*.jpg` 文件。）"@,
{
    "文件夹下没有图片！（只支持 `*.png` 文件或 `*.jpg` 文件。）"
}

} // verus!
