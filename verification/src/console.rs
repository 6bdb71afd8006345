//! The firmware's console output since power-on, and the search for text in it.
use vstd::prelude::*;

verus! {

/// Bytes kept; the log is cut back to this once it holds more than twice as much.
pub const CONSOLE_KEEP: usize = 0x10_0000;

/// Console output since power-on. Offsets count every byte ever pushed; bytes older
/// than [`CONSOLE_KEEP`] may be dropped.
#[derive(Debug)]
pub struct ConsoleLog {
    /// Bytes dropped from the front.
    pub dropped: u64,
    pub bytes: Vec<u8>,
}

/// Console output since power-on.
#[verifier::ext_equal]
pub struct Console {
    pub dropped: nat,
    pub bytes: Seq<u8>,
}

impl View for ConsoleLog {
    type V = Console;

    open spec fn view(&self) -> Console {
        Console { dropped: self.dropped as nat, bytes: self.bytes@ }
    }
}

/// The first position at or after `from` where `t` occurs in `s`, if there is one.
pub open spec fn first_at(s: Seq<u8>, t: Seq<u8>, from: int) -> Option<int>
    decreases s.len() + 1 - from,
{
    if from + t.len() > s.len() {
        None
    } else if crate::text::occurs_at(s, t, from) {
        Some(from)
    } else {
        first_at(s, t, from + 1)
    }
}

impl Console {
    /// Before any output.
    pub open spec fn silent() -> Console {
        Console { dropped: 0, bytes: Seq::empty() }
    }

    /// After the pushes of `parts` in order.
    pub open spec fn after(parts: Seq<Seq<u8>>) -> Console
        decreases parts.len(),
    {
        if parts.len() == 0 {
            Console::silent()
        } else {
            Console::after(parts.drop_last()).pushed(parts.last())
        }
    }

    /// How many bytes were ever pushed.
    pub open spec fn total(self) -> nat {
        self.dropped + self.bytes.len()
    }

    /// With `data` behind.
    pub open spec fn pushed(self, data: Seq<u8>) -> Console {
        let all = self.bytes + data;
        if all.len() > 2 * CONSOLE_KEEP {
            let cut = all.len() - CONSOLE_KEEP;
            Console { dropped: (self.dropped + cut) as nat, bytes: all.skip(cut) }
        } else {
            Console { dropped: self.dropped, bytes: all }
        }
    }

    /// Where in the kept bytes a search from offset `mark` starts.
    pub open spec fn start(self, mark: nat) -> int {
        if mark <= self.dropped {
            0
        } else if mark - self.dropped >= self.bytes.len() {
            self.bytes.len() as int
        } else {
            mark - self.dropped
        }
    }

    /// The offset just past the first occurrence of the non-empty text at or after
    /// offset `mark`, if there is one.
    pub open spec fn found(self, text: Seq<u8>, mark: nat) -> Option<nat> {
        if text.len() == 0 {
            None
        } else {
            match first_at(self.bytes, text, self.start(mark)) {
                Some(i) => Some((self.dropped + i + text.len()) as nat),
                None => None,
            }
        }
    }
}

fn same_at(s: &Vec<u8>, t: &[u8], i: usize) -> (b: bool)
    requires
        i + t@.len() <= s@.len(),
    ensures
        b == crate::text::occurs_at(s@, t@, i as int),
{
    let n: usize = s.len();
    let mut j: usize = 0;
    while j < t.len()
        invariant
            j <= t@.len(),
            i + t@.len() <= s@.len() == n,
            forall|k: int| 0 <= k < j ==> s@[i + k] == t@[k],
        decreases t@.len() - j,
    {
        if s[i + j] != t[j] {
            assert(s@.subrange(i as int, i + t@.len())[j as int] != t@[j as int]);
            return false;
        }
        j = j + 1;
    }
    assert(s@.subrange(i as int, i + t@.len()) =~= t@);
    true
}

impl Default for ConsoleLog {
    /// Nothing pushed yet.
    fn default() -> (c: ConsoleLog)
        ensures
            c@ == Console::silent(),
    {
        let c = ConsoleLog { dropped: 0, bytes: Vec::new() };
        assert(c@ =~= Console::silent());
        c
    }
}

impl ConsoleLog {
    /// Append output.
    pub fn push(&mut self, data: &[u8])
        requires
            old(self)@.total() + data@.len() <= u64::MAX,
        ensures
            final(self)@ == old(self)@.pushed(data@),
    {
        let ghost s = self@;
        let mut i: usize = 0;
        assert(s.bytes + data@.take(0) =~= s.bytes);
        while i < data.len()
            invariant
                i <= data@.len(),
                self@ == (Console { bytes: s.bytes + data@.take(i as int), ..s }),
            decreases data@.len() - i,
        {
            self.bytes.push(data[i]);
            assert(self.bytes@ =~= s.bytes + data@.take(i + 1));
            i = i + 1;
        }
        assert(data@.take(data@.len() as int) =~= data@);
        let n: usize = self.bytes.len();
        if n > 2 * CONSOLE_KEEP {
            let cut: usize = n - CONSOLE_KEEP;
            let ghost all = self.bytes@;
            let kept = self.bytes.split_off(cut);
            self.bytes = kept;
            assert(self.bytes@ =~= all.skip(cut as int));
            self.dropped = self.dropped + cut as u64;
        }
    }

    /// Whether non-empty `text` starts at or after offset `*mark`; `*mark` then
    /// moves just past the first such occurrence.
    pub fn find_after(&self, text: &str, mark: &mut u64) -> (b: bool)
        requires
            self@.total() <= u64::MAX,
        ensures
            match self@.found(vstd::utf8::encode_utf8(text@), *old(mark) as nat) {
                Some(m) => b && *final(mark) == m,
                None => !b && *final(mark) == *old(mark),
            },
    {
        let needle = text.as_bytes();
        let len: usize = needle.len();
        let n: usize = self.bytes.len();
        if len == 0 {
            return false;
        }
        let start: usize = if *mark <= self.dropped {
            0
        } else if *mark - self.dropped >= n as u64 {
            n
        } else {
            (*mark - self.dropped) as usize
        };
        let mut i: usize = start;
        while i <= n && len <= n - i
            invariant
                start <= i <= n + 1,
                n == self.bytes@.len(),
                len == needle@.len(),
                len > 0,
                self@.total() <= u64::MAX,
                needle@ == vstd::utf8::encode_utf8(text@),
                *mark == *old(mark),
                start == self@.start(*mark as nat),
                first_at(self.bytes@, needle@, start as int) == first_at(
                    self.bytes@,
                    needle@,
                    i as int,
                ),
            decreases n + 1 - i,
        {
            if same_at(&self.bytes, needle, i) {
                *mark = self.dropped + (i + len) as u64;
                return true;
            }
            i = i + 1;
        }
        false
    }
}

/// What is kept: at most twice [`CONSOLE_KEEP`], and at least [`CONSOLE_KEEP`] once
/// anything was dropped.
pub open spec fn kept(s: Console) -> bool {
    &&& s.bytes.len() <= 2 * CONSOLE_KEEP
    &&& s.dropped > 0 ==> s.bytes.len() >= CONSOLE_KEEP
}

/// Offsets stay: a push adds its length to the total, and every byte that is still
/// kept stands at the offset at which it was pushed.
pub proof fn offsets_stay(s: Console, data: Seq<u8>, o: int)
    ensures
        s.pushed(data).total() == s.total() + data.len(),
        kept(s) ==> kept(s.pushed(data)),
        s.pushed(data).dropped <= o < s.total() ==> s.pushed(data).bytes[o - s.pushed(data).dropped]
            == s.bytes[o - s.dropped],
        s.pushed(data).dropped <= o && s.total() <= o < s.total() + data.len()
            ==> s.pushed(data).bytes[o - s.pushed(data).dropped] == data[o - s.total()],
{
}

/// A push drops nothing while the log stays within twice [`CONSOLE_KEEP`];
/// beyond that, exactly the last [`CONSOLE_KEEP`] bytes are kept.
pub proof fn the_log_is_cut_back(s: Console, data: Seq<u8>)
    ensures
        s.bytes.len() + data.len() <= 2 * CONSOLE_KEEP ==> s.pushed(data) == (Console {
            dropped: s.dropped,
            bytes: s.bytes + data,
        }),
        s.bytes.len() + data.len() > 2 * CONSOLE_KEEP ==> {
            &&& s.pushed(data).bytes.len() == CONSOLE_KEEP
            &&& s.pushed(data).bytes.is_suffix_of(s.bytes + data)
            &&& s.pushed(data).dropped == s.total() + data.len() - CONSOLE_KEEP
        },
{
}

/// From power-on, whatever is pushed: the bytes dropped and the bytes kept count
/// everything ever pushed, what is kept ends it, and no more than twice
/// [`CONSOLE_KEEP`] bytes are kept.
pub proof fn the_log_ends_the_output(parts: Seq<Seq<u8>>)
    ensures
        Console::after(parts).total() == parts.flatten().len(),
        Console::after(parts).bytes.is_suffix_of(parts.flatten()),
        kept(Console::after(parts)),
    decreases parts.len(),
{
    if parts.len() == 0 {
        assert(parts.flatten() =~= Seq::<u8>::empty());
    } else {
        let s = Console::after(parts.drop_last());
        let all = parts.drop_last().flatten();
        the_log_ends_the_output(parts.drop_last());
        parts.lemma_flatten_and_flatten_alt_are_equivalent();
        parts.drop_last().lemma_flatten_and_flatten_alt_are_equivalent();
        assert(parts.flatten() =~= all + parts.last());
        offsets_stay(s, parts.last(), 0);
        let t = s.pushed(parts.last());
        assert(t.bytes =~= parts.flatten().subrange(
            parts.flatten().len() - t.bytes.len(),
            parts.flatten().len() as int,
        ));
    }
}

/// What a search finds, by position.
proof fn first_is_first(s: Seq<u8>, t: Seq<u8>, from: int)
    requires
        from >= 0,
    ensures
        match first_at(s, t, from) {
            Some(i) => {
                &&& from <= i
                &&& crate::text::occurs_at(s, t, i)
                &&& forall|k: int| from <= k < i ==> !#[trigger] crate::text::occurs_at(s, t, k)
            },
            None => forall|k: int| from <= k ==> !#[trigger] crate::text::occurs_at(s, t, k),
        },
    decreases s.len() + 1 - from,
{
    if from + t.len() <= s.len() && !crate::text::occurs_at(s, t, from) {
        first_is_first(s, t, from + 1);
    }
}

/// A search finds the first occurrence that starts at or after the mark and is
/// still kept, and finds nothing exactly if there is none.
pub proof fn a_match_is_the_first(s: Console, text: Seq<u8>, mark: nat)
    requires
        text.len() > 0,
    ensures
        match s.found(text, mark) {
            Some(m) => {
                &&& mark <= m - text.len()
                &&& crate::text::occurs_at(s.bytes, text, m - text.len() - s.dropped)
                &&& forall|k: int|
                    mark - s.dropped <= k < m - text.len() - s.dropped ==> !(
                    #[trigger] crate::text::occurs_at(s.bytes, text, k))
            },
            None => forall|k: int|
                mark - s.dropped <= k ==> !#[trigger] crate::text::occurs_at(s.bytes, text, k),
        },
{
    first_is_first(s.bytes, text, s.start(mark));
}

/// Two searches in a row need two occurrences, in order and apart.
pub proof fn matches_do_not_overlap(s: Console, text: Seq<u8>, again: Seq<u8>, mark: nat)
    ensures
        s.found(text, mark) matches Some(m) ==> (s.found(again, m) matches Some(n) ==> n >= m
            + again.len()),
{
    if text.len() > 0 && again.len() > 0 {
        if let Some(m) = s.found(text, mark) {
            a_match_is_the_first(s, again, m);
        }
    }
}

/// An empty text is never found.
pub proof fn nothing_is_not_found(s: Console, mark: nat)
    ensures
        s.found(Seq::empty(), mark) is None,
{
}

} // verus!
