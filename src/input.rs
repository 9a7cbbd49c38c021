use vstd::prelude::*;

verus! {

/// Line feed: ends a line of keyboard input.
pub const LF: u8 = 10;

/// Carriage return: what the remote shell reads as the end of a command.
pub const CR: u8 = 13;

/// Number of bytes before the first line feed of `s` (all of `s` if it has none).
pub open spec fn line_len(s: Seq<u8>) -> nat
    decreases s.len(),
{
    if s.len() == 0 {
        0
    } else if s[0] == LF {
        0
    } else {
        1 + line_len(s.drop_first())
    }
}

/// The first line of a chunk, as a line reader yields it: the bytes before the
/// first line feed, without the carriage return that may precede that line feed.
/// An empty chunk holds no line.
pub open spec fn first_line(s: Seq<u8>) -> Option<Seq<u8>> {
    if s.len() == 0 {
        None
    } else {
        let k = line_len(s);
        if k < s.len() && k > 0 && s[k - 1] == CR {
            Some(s.take(k - 1))
        } else {
            Some(s.take(k as int))
        }
    }
}

/// What one chunk of keyboard input sends to the remote shell: its first line
/// followed by a carriage return. The rest of the chunk is dropped.
pub open spec fn forwarded(s: Seq<u8>) -> Option<Seq<u8>> {
    match first_line(s) {
        Some(line) => Some(line.push(CR)),
        None => None,
    }
}

/// `k` is the position of the first line feed of `s`, or its length if it has none.
proof fn lemma_line_len(s: Seq<u8>, k: int)
    requires
        0 <= k <= s.len(),
        forall|j: int| 0 <= j < k ==> s[j] != LF,
        k == s.len() || s[k] == LF,
    ensures
        line_len(s) == k,
    decreases k,
{
    if k > 0 {
        let t = s.drop_first();
        assert forall|j: int| 0 <= j < k - 1 implies t[j] != LF by {
            assert(t[j] == s[j + 1]);
        }
        lemma_line_len(t, k - 1);
    }
}

/// Extracts the first line of a chunk of keyboard input.
pub fn first_line_of(chunk: &[u8]) -> (r: Option<Vec<u8>>)
    ensures
        match r {
            Some(v) => first_line(chunk@) == Some(v@),
            None => first_line(chunk@) is None,
        },
{
    let n = chunk.len();
    if n == 0 {
        return None;
    }
    let mut k: usize = 0;
    while k < n && chunk[k] != LF
        invariant
            n == chunk@.len(),
            0 <= k <= n,
            forall|j: int| 0 <= j < k ==> chunk@[j] != LF,
        decreases n - k,
    {
        k = k + 1;
    }
    proof {
        lemma_line_len(chunk@, k as int);
    }
    let end: usize = if k < n && k > 0 && chunk[k - 1] == CR {
        k - 1
    } else {
        k
    };
    let mut line: Vec<u8> = Vec::new();
    let mut i: usize = 0;
    while i < end
        invariant
            end <= n == chunk@.len(),
            0 <= i <= end,
            line@ == chunk@.take(i as int),
        decreases end - i,
    {
        line.push(chunk[i]);
        i = i + 1;
        assert(line@ =~= chunk@.take(i as int));
    }
    assert(line@ =~= chunk@.take(end as int));
    Some(line)
}

/// The bytes that one chunk of keyboard input sends to the remote shell, if any:
/// its first line and a carriage return.
pub fn forwarded_input(chunk: &[u8]) -> (r: Option<Vec<u8>>)
    ensures
        match r {
            Some(v) => forwarded(chunk@) == Some(v@),
            None => forwarded(chunk@) is None,
        },
{
    match first_line_of(chunk) {
        Some(mut line) => {
            line.push(CR);
            Some(line)
        },
        None => None,
    }
}

} // verus!
