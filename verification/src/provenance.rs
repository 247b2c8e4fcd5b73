//! Clipboard provenance extraction.
//!
//! The system clipboard is an OS-global mutual-exclusion resource reached
//! through the `ClipboardPort` trait: open it, check the HTML-format
//! snapshot, obtain and lock its data handle, copy the bytes out, unlock,
//! and close — with the close guaranteed on every exit path, which
//! `extract_source_url`'s contract states as an exact open/close balance.
//! The copied bytes are searched for the first line beginning with
//! `SourceURL:`; its remainder, trimmed of ASCII whitespace, is the
//! provenance text, decoded lossily as UTF-8. A payload without such a
//! line yields the sentinel `No URL found`, distinguishing it from an
//! absent or unreadable snapshot, which yields nothing at all.

use vstd::prelude::*;

use crate::tally::lemma_occurrences_push;
use crate::tally::occurrences;

verus! {

/// What `String::from_utf8_lossy` returns for these bytes: a function of
/// the bytes alone.
pub uninterp spec fn utf8_lossy(bytes: Seq<u8>) -> Seq<char>;

/// What `String::from_utf16_lossy` returns for these code units: a
/// function of the units alone.
pub uninterp spec fn utf16_lossy(units: Seq<u16>) -> Seq<char>;

/// Relies on std's String::from_utf8_lossy: decodes the bytes as UTF-8,
/// substituting the replacement character for invalid sequences; the
/// result depends on the bytes alone.
#[verifier::external_body]
fn decode_utf8_lossy(bytes: &Vec<u8>) -> (r: String)
    ensures
        r@ == utf8_lossy(bytes@),
{
    String::from_utf8_lossy(bytes.as_slice()).into_owned()
}

/// Relies on std's String::from_utf16_lossy: decodes the first `n` code
/// units as UTF-16, substituting the replacement character for unpaired
/// surrogates; the result depends on the units alone.
#[verifier::external_body]
fn decode_utf16_lossy(units: &Vec<u16>, n: usize) -> (r: String)
    requires
        n <= units@.len(),
    ensures
        r@ == utf16_lossy(units@.take(n as int)),
{
    String::from_utf16_lossy(&units[..n])
}

/// The line-break byte that terminates a clipboard text line.
pub open spec fn is_line_break(b: u8) -> bool {
    b == 10
}

/// ASCII whitespace, as trimmed from the extracted remainder.
pub open spec fn is_ascii_space(b: u8) -> bool {
    b == 32 || b == 9 || b == 10 || b == 12 || b == 13
}

/// The length of the first line of `s`: the bytes before the first line
/// break, or all of `s` if there is none.
pub open spec fn line_len(s: Seq<u8>) -> nat
    decreases s.len(),
{
    if s.len() == 0 || is_line_break(s[0]) {
        0
    } else {
        line_len(s.drop_first()) + 1
    }
}

/// The bytes of the literal `SourceURL:` marker.
pub open spec fn spec_prefix() -> Seq<u8> {
    seq![83u8, 111u8, 117u8, 114u8, 99u8, 101u8, 85u8, 82u8, 76u8, 58u8]
}

/// Whether a line begins with the `SourceURL:` marker.
pub open spec fn has_source_url_prefix(line: Seq<u8>) -> bool {
    line.len() >= 10 && line.take(10) == spec_prefix()
}

/// The remainder of the first line of `s` that begins with the
/// `SourceURL:` marker, or `None` if no line does.
pub open spec fn find_url_line(s: Seq<u8>) -> Option<Seq<u8>>
    decreases s.len(),
{
    if s.len() == 0 {
        None
    } else {
        let n = line_len(s);
        let line = s.take(n as int);
        if has_source_url_prefix(line) {
            Some(line.skip(10))
        } else if n < s.len() {
            find_url_line(s.skip(n as int + 1))
        } else {
            None
        }
    }
}

/// `s` stripped of leading and trailing ASCII whitespace.
pub open spec fn spec_trim(s: Seq<u8>) -> Seq<u8>
    decreases s.len(),
{
    if s.len() == 0 {
        s
    } else if is_ascii_space(s[0]) {
        spec_trim(s.drop_first())
    } else if is_ascii_space(s.last()) {
        spec_trim(s.drop_last())
    } else {
        s
    }
}

/// The provenance bytes of an HTML-format payload: the trimmed remainder
/// of its first `SourceURL:` line, if any.
pub open spec fn spec_source_url(bytes: Seq<u8>) -> Option<Seq<u8>> {
    match find_url_line(bytes) {
        Some(u) => Some(spec_trim(u)),
        None => None,
    }
}

/// The text reported for a present HTML-format payload: the decoded
/// provenance bytes, or the `No URL found` sentinel when the payload has
/// no `SourceURL:` line.
pub open spec fn extraction_text(bytes: Seq<u8>) -> Seq<char> {
    match spec_source_url(bytes) {
        Some(u) => utf8_lossy(u),
        None => "No URL found"@,
    }
}

/// The first line of `s` runs up to position `n` exactly when everything
/// before `n` is ordinary and `n` is a break or the end.
proof fn lemma_line_len_at(s: Seq<u8>, n: nat)
    requires
        n <= s.len(),
        forall|k: int| 0 <= k < n ==> !is_line_break(s[k]),
        n < s.len() ==> is_line_break(s[n as int]),
    ensures
        line_len(s) == n,
    decreases n,
{
    if n == 0 {
    } else {
        assert(!is_line_break(s[0]));
        lemma_line_len_at(s.drop_first(), (n - 1) as nat);
    }
}

fn source_url_prefix_byte(k: usize) -> (r: u8)
    requires
        k < 10,
    ensures
        r == spec_prefix()[k as int],
{
    if k == 0 {
        83
    } else if k == 1 {
        111
    } else if k == 2 {
        117
    } else if k == 3 {
        114
    } else if k == 4 {
        99
    } else if k == 5 {
        101
    } else if k == 6 {
        85
    } else if k == 7 {
        82
    } else if k == 8 {
        76
    } else {
        58
    }
}

fn has_prefix_at(bytes: &Vec<u8>, i: usize, j: usize) -> (r: bool)
    requires
        i + 10 <= j,
        j <= bytes@.len(),
    ensures
        r == has_source_url_prefix(bytes@.subrange(i as int, j as int)),
{
    let ghost line = bytes@.subrange(i as int, j as int);
    let mut k: usize = 0;
    while k < 10
        invariant
            k <= 10,
            i + 10 <= j,
            j <= bytes@.len(),
            line == bytes@.subrange(i as int, j as int),
            forall|t: int| 0 <= t < k ==> line[t] == spec_prefix()[t],
        decreases 10 - k,
    {
        let b = bytes[i + k];
        proof {
            assert(line[k as int] == bytes@[i + k as int]);
        }
        if b != source_url_prefix_byte(k) {
            proof {
                assert(line.take(10)[k as int] == line[k as int]);
                assert(line.take(10) != spec_prefix());
            }
            return false;
        }
        k = k + 1;
    }
    proof {
        assert(line.take(10) =~= spec_prefix());
    }
    true
}

/// The trimmed remainder of the first `SourceURL:` line of `bytes`, as
/// owned bytes; `None` exactly when no line carries the marker.
pub fn extract_url_bytes(bytes: &Vec<u8>) -> (r: Option<Vec<u8>>)
    ensures
        (match (r, spec_source_url(bytes@)) {
            (Some(v), Some(u)) => v@ == u,
            (None, None) => true,
            _ => false,
        }),
{
    let n = bytes.len();
    let mut i: usize = 0;
    proof {
        assert(bytes@.skip(0) =~= bytes@);
    }
    while i < n
        invariant
            i <= n,
            n == bytes@.len(),
            find_url_line(bytes@) == find_url_line(bytes@.skip(i as int)),
        decreases n - i,
    {
        let ghost suffix = bytes@.skip(i as int);
        let mut j: usize = i;
        while j < n && bytes[j] != 10
            invariant
                i <= j <= n,
                n == bytes@.len(),
                forall|k: int| i <= k < j ==> !is_line_break(bytes@[k]),
            decreases n - j,
        {
            j = j + 1;
        }
        proof {
            assert(forall|k: int| 0 <= k < j - i ==> suffix[k] == bytes@[i + k]);
            if j < n {
                assert(suffix[(j - i) as int] == bytes@[j as int]);
            }
            lemma_line_len_at(suffix, (j - i) as nat);
        }
        let matched = if j - i >= 10 {
            let ghost line_a = suffix.take((j - i) as int);
            proof {
                assert(line_a =~= bytes@.subrange(i as int, j as int));
            }
            has_prefix_at(bytes, i, j)
        } else {
            proof {
                assert(!has_source_url_prefix(suffix.take((j - i) as int)));
            }
            false
        };
        if matched {
            let ghost line = suffix.take((j - i) as int);
            let ghost raw = bytes@.subrange(i as int + 10, j as int);
            proof {
                assert(line.skip(10) =~= raw);
                assert(find_url_line(suffix) == Some(line.skip(10)));
            }
            let mut lo: usize = i + 10;
            let mut hi: usize = j;
            while lo < hi && (bytes[lo] == 32 || bytes[lo] == 9 || bytes[lo] == 10 || bytes[lo]
                == 12 || bytes[lo] == 13)
                invariant
                    i + 10 <= lo <= hi <= j,
                    j <= n == bytes@.len(),
                    spec_trim(raw) == spec_trim(bytes@.subrange(lo as int, hi as int)),
                    raw == bytes@.subrange(i as int + 10, j as int),
                decreases hi - lo,
            {
                proof {
                    let cur = bytes@.subrange(lo as int, hi as int);
                    assert(is_ascii_space(cur[0]));
                    assert(cur.drop_first() =~= bytes@.subrange(lo as int + 1, hi as int));
                }
                lo = lo + 1;
            }
            while lo < hi && (bytes[hi - 1] == 32 || bytes[hi - 1] == 9 || bytes[hi - 1] == 10
                || bytes[hi - 1] == 12 || bytes[hi - 1] == 13)
                invariant
                    i + 10 <= lo <= hi <= j,
                    j <= n == bytes@.len(),
                    spec_trim(raw) == spec_trim(bytes@.subrange(lo as int, hi as int)),
                    raw == bytes@.subrange(i as int + 10, j as int),
                    lo < hi ==> !is_ascii_space(bytes@[lo as int]),
                decreases hi - lo,
            {
                proof {
                    let cur = bytes@.subrange(lo as int, hi as int);
                    assert(cur[0] == bytes@[lo as int]);
                    assert(cur.last() == bytes@[hi - 1]);
                    assert(is_ascii_space(cur.last()));
                    assert(cur.drop_last() =~= bytes@.subrange(lo as int, hi as int - 1));
                }
                hi = hi - 1;
            }
            proof {
                let cur = bytes@.subrange(lo as int, hi as int);
                if lo == hi {
                    assert(cur =~= Seq::<u8>::empty());
                } else {
                    assert(cur[0] == bytes@[lo as int]);
                    assert(cur.last() == bytes@[hi - 1]);
                    assert(spec_trim(cur) == cur);
                }
            }
            let mut out: Vec<u8> = Vec::new();
            let mut k: usize = lo;
            while k < hi
                invariant
                    lo <= k <= hi <= n,
                    n == bytes@.len(),
                    out@ =~= bytes@.subrange(lo as int, k as int),
                decreases hi - k,
            {
                out.push(bytes[k]);
                proof {
                    assert(bytes@.subrange(lo as int, k as int + 1) =~= bytes@.subrange(
                        lo as int,
                        k as int,
                    ).push(bytes@[k as int]));
                }
                k = k + 1;
            }
            proof {
                assert(out@ =~= bytes@.subrange(lo as int, hi as int));
            }
            return Some(out);
        }
        if j < n {
            proof {
                assert(suffix.skip((j - i) as int + 1) =~= bytes@.skip(j as int + 1));
                assert(find_url_line(suffix) == find_url_line(bytes@.skip(j as int + 1)));
            }
            i = j + 1;
        } else {
            proof {
                assert(find_url_line(suffix) is None);
                assert(bytes@.skip(n as int) =~= Seq::<u8>::empty());
                assert(find_url_line(bytes@.skip(n as int)) is None);
            }
            i = n;
        }
    }
    proof {
        assert(bytes@.skip(i as int) =~= Seq::<u8>::empty());
    }
    None
}

/// The text reported for a present HTML-format payload.
pub fn provenance_text(bytes: &Vec<u8>) -> (r: String)
    ensures
        r@ == extraction_text(bytes@),
{
    match extract_url_bytes(bytes) {
        Some(url) => decode_utf8_lossy(&url),
        None => String::from_str("No URL found"),
    }
}

/// The system clipboard as the host process exposes it, following the
/// acquire/inspect/lock/copy/unlock/release discipline. `opens()` and
/// `closes()` count acquisitions and releases; `locks()` and `unlocks()`
/// count lock attempts and unlock calls; `html()` is the HTML-format
/// payload the clipboard currently holds, if that format is present, and
/// no operation here changes it.
pub trait ClipboardPort {
    spec fn is_open(&self) -> bool;

    spec fn is_locked(&self) -> bool;

    spec fn has_data_handle(&self) -> bool;

    spec fn html(&self) -> Option<Seq<u8>>;

    spec fn opens(&self) -> nat;

    spec fn closes(&self) -> nat;

    spec fn locks(&self) -> nat;

    spec fn unlocks(&self) -> nat;

    fn open(&mut self) -> (r: bool)
        requires
            !old(self).is_open(),
            !old(self).is_locked(),
        ensures
            final(self).html() == old(self).html(),
            final(self).closes() == old(self).closes(),
            final(self).locks() == old(self).locks(),
            final(self).unlocks() == old(self).unlocks(),
            !final(self).is_locked(),
            !final(self).has_data_handle(),
            r ==> final(self).is_open() && final(self).opens() == old(self).opens() + 1,
            !r ==> !final(self).is_open() && final(self).opens() == old(self).opens(),
    ;

    fn html_format_available(&self) -> (r: bool)
        requires
            self.is_open(),
        ensures
            r == (self.html() is Some),
    ;

    fn acquire_data_handle(&mut self) -> (r: bool)
        requires
            old(self).is_open(),
            !old(self).is_locked(),
            old(self).html() is Some,
        ensures
            final(self).html() == old(self).html(),
            final(self).opens() == old(self).opens(),
            final(self).closes() == old(self).closes(),
            final(self).locks() == old(self).locks(),
            final(self).unlocks() == old(self).unlocks(),
            final(self).is_open(),
            !final(self).is_locked(),
            r == final(self).has_data_handle(),
    ;

    fn lock_data(&mut self) -> (r: bool)
        requires
            old(self).is_open(),
            old(self).has_data_handle(),
            !old(self).is_locked(),
            old(self).html() is Some,
        ensures
            final(self).html() == old(self).html(),
            final(self).opens() == old(self).opens(),
            final(self).closes() == old(self).closes(),
            final(self).locks() == old(self).locks() + 1,
            final(self).unlocks() == old(self).unlocks(),
            final(self).is_open(),
            final(self).has_data_handle(),
            r == final(self).is_locked(),
    ;

    fn read_locked(&self) -> (r: Vec<u8>)
        requires
            self.is_open(),
            self.is_locked(),
            self.html() is Some,
        ensures
            (self.html() matches Some(b) && r@ == b),
    ;

    fn unlock_data(&mut self)
        requires
            old(self).is_locked(),
        ensures
            final(self).html() == old(self).html(),
            final(self).opens() == old(self).opens(),
            final(self).closes() == old(self).closes(),
            final(self).locks() == old(self).locks(),
            final(self).unlocks() == old(self).unlocks() + 1,
            !final(self).is_locked(),
            final(self).is_open() == old(self).is_open(),
            final(self).has_data_handle() == old(self).has_data_handle(),
    ;

    fn close(&mut self)
        requires
            old(self).is_open(),
            !old(self).is_locked(),
        ensures
            final(self).html() == old(self).html(),
            final(self).opens() == old(self).opens(),
            final(self).closes() == old(self).closes() + 1,
            final(self).locks() == old(self).locks(),
            final(self).unlocks() == old(self).unlocks(),
            !final(self).is_open(),
            !final(self).is_locked(),
            !final(self).has_data_handle(),
    ;
}

/// Acquires the clipboard, copies the HTML-format snapshot out under its
/// memory lock, releases everything, and parses the provenance text.
///
/// The clipboard is released exactly once per successful acquisition,
/// whichever step failed: the number of closes grows exactly as the
/// number of opens. When the HTML format is absent the memory lock is
/// never touched. The copy happens strictly between lock and unlock, and
/// something is returned exactly when the unlock was reached.
pub fn extract_source_url<P: ClipboardPort>(port: &mut P) -> (r: Option<String>)
    requires
        !old(port).is_open(),
        !old(port).is_locked(),
    ensures
        final(port).html() == old(port).html(),
        !final(port).is_open(),
        !final(port).is_locked(),
        final(port).closes() - old(port).closes() == final(port).opens() - old(port).opens(),
        old(port).opens() <= final(port).opens() <= old(port).opens() + 1,
        old(port).html() is None ==> r is None && final(port).locks() == old(port).locks()
            && final(port).unlocks() == old(port).unlocks(),
        (r matches Some(t) ==> (old(port).html() matches Some(b) && t@ == extraction_text(b))),
        r is Some <==> final(port).unlocks() == old(port).unlocks() + 1,
{
    if !port.open() {
        return None;
    }
    if !port.html_format_available() {
        port.close();
        return None;
    }
    if !port.acquire_data_handle() {
        port.close();
        return None;
    }
    if !port.lock_data() {
        port.close();
        return None;
    }
    let bytes = port.read_locked();
    port.unlock_data();
    port.close();
    Some(provenance_text(&bytes))
}

/// One recorded clipboard call of the scripted clipboard. `Open` records
/// a successful acquisition, `Close` a release, `Lock` a lock attempt,
/// `Unlock` an unlock.
#[derive(Clone, Copy, Debug, PartialEq, Eq, Structural)]
pub enum ClipCall {
    Open,
    Close,
    Lock,
    Unlock,
}

/// A clipboard with a fixed payload and scripted refusals: the in-crate
/// implementation of `ClipboardPort` that the test suite drives. Every
/// acquisition, release, lock attempt and unlock is recorded in `calls`.
pub struct ScriptedClipboard {
    pub html_payload: Option<Vec<u8>>,
    pub deny_open: bool,
    pub deny_handle: bool,
    pub deny_lock: bool,
    pub now_open: bool,
    pub now_locked: bool,
    pub now_handle: bool,
    pub calls: Vec<ClipCall>,
}

impl ClipboardPort for ScriptedClipboard {
    closed spec fn is_open(&self) -> bool {
        self.now_open
    }

    closed spec fn is_locked(&self) -> bool {
        self.now_locked
    }

    closed spec fn has_data_handle(&self) -> bool {
        self.now_handle
    }

    closed spec fn html(&self) -> Option<Seq<u8>> {
        match self.html_payload {
            Some(v) => Some(v@),
            None => None,
        }
    }

    closed spec fn opens(&self) -> nat {
        occurrences(self.calls@, ClipCall::Open)
    }

    closed spec fn closes(&self) -> nat {
        occurrences(self.calls@, ClipCall::Close)
    }

    closed spec fn locks(&self) -> nat {
        occurrences(self.calls@, ClipCall::Lock)
    }

    closed spec fn unlocks(&self) -> nat {
        occurrences(self.calls@, ClipCall::Unlock)
    }

    fn open(&mut self) -> (r: bool) {
        self.now_handle = false;
        if self.deny_open {
            false
        } else {
            proof {
                lemma_occurrences_push(self.calls@, ClipCall::Open, ClipCall::Open);
                lemma_occurrences_push(self.calls@, ClipCall::Open, ClipCall::Close);
                lemma_occurrences_push(self.calls@, ClipCall::Open, ClipCall::Lock);
                lemma_occurrences_push(self.calls@, ClipCall::Open, ClipCall::Unlock);
            }
            self.calls.push(ClipCall::Open);
            self.now_open = true;
            true
        }
    }

    fn html_format_available(&self) -> (r: bool) {
        match &self.html_payload {
            Some(_) => true,
            None => false,
        }
    }

    fn acquire_data_handle(&mut self) -> (r: bool) {
        if self.deny_handle {
            self.now_handle = false;
            false
        } else {
            self.now_handle = true;
            true
        }
    }

    fn lock_data(&mut self) -> (r: bool) {
        proof {
            lemma_occurrences_push(self.calls@, ClipCall::Lock, ClipCall::Open);
            lemma_occurrences_push(self.calls@, ClipCall::Lock, ClipCall::Close);
            lemma_occurrences_push(self.calls@, ClipCall::Lock, ClipCall::Lock);
            lemma_occurrences_push(self.calls@, ClipCall::Lock, ClipCall::Unlock);
        }
        self.calls.push(ClipCall::Lock);
        if self.deny_lock {
            false
        } else {
            self.now_locked = true;
            true
        }
    }

    fn read_locked(&self) -> (r: Vec<u8>) {
        match &self.html_payload {
            Some(v) => {
                let mut out: Vec<u8> = Vec::new();
                let mut k: usize = 0;
                while k < v.len()
                    invariant
                        k <= v@.len(),
                        out@ =~= v@.take(k as int),
                    decreases v@.len() - k,
                {
                    out.push(v[k]);
                    proof {
                        assert(v@.take(k as int + 1) =~= v@.take(k as int).push(v@[k as int]));
                    }
                    k = k + 1;
                }
                proof {
                    assert(v@.take(v@.len() as int) =~= v@);
                }
                out
            },
            None => {
                proof {
                    assert(false);
                }
                Vec::new()
            },
        }
    }

    fn unlock_data(&mut self) {
        proof {
            lemma_occurrences_push(self.calls@, ClipCall::Unlock, ClipCall::Open);
            lemma_occurrences_push(self.calls@, ClipCall::Unlock, ClipCall::Close);
            lemma_occurrences_push(self.calls@, ClipCall::Unlock, ClipCall::Lock);
            lemma_occurrences_push(self.calls@, ClipCall::Unlock, ClipCall::Unlock);
        }
        self.calls.push(ClipCall::Unlock);
        self.now_locked = false;
    }

    fn close(&mut self) {
        proof {
            lemma_occurrences_push(self.calls@, ClipCall::Close, ClipCall::Open);
            lemma_occurrences_push(self.calls@, ClipCall::Close, ClipCall::Close);
            lemma_occurrences_push(self.calls@, ClipCall::Close, ClipCall::Lock);
            lemma_occurrences_push(self.calls@, ClipCall::Close, ClipCall::Unlock);
        }
        self.calls.push(ClipCall::Close);
        self.now_open = false;
        self.now_handle = false;
    }
}

impl ScriptedClipboard {
    /// A closed clipboard holding the given HTML-format payload, with no
    /// scripted refusals and an empty call log.
    pub fn new(payload: Option<Vec<u8>>) -> (r: ScriptedClipboard)
        ensures
            r.html() == (match payload {
                Some(v) => Some::<Seq<u8>>(v@),
                None => None::<Seq<u8>>,
            }),
            !r.is_open(),
            !r.is_locked(),
            !r.has_data_handle(),
            r.opens() == 0,
            r.closes() == 0,
            r.locks() == 0,
            r.unlocks() == 0,
            !r.deny_open,
            !r.deny_handle,
            !r.deny_lock,
    {
        ScriptedClipboard {
            html_payload: payload,
            deny_open: false,
            deny_handle: false,
            deny_lock: false,
            now_open: false,
            now_locked: false,
            now_handle: false,
            calls: Vec::new(),
        }
    }
}

/// The cap on a foreground-window title: titles longer than this many
/// UTF-16 code units are truncated, not rejected.
pub const MAX_TITLE_UNITS: usize = 512;

/// How many code units of a title buffer are meaningful: the reported
/// length, clamped to the buffer and to `MAX_TITLE_UNITS`.
pub open spec fn title_take_len(buffer_len: nat, reported_len: nat) -> nat {
    let cap = if buffer_len < 512 {
        buffer_len
    } else {
        512
    };
    if reported_len < cap {
        reported_len
    } else {
        cap
    }
}

/// The title text of a foreground-window query: the meaningful code
/// units decoded as UTF-16, or `None` when the query reported no text.
pub fn title_from_utf16(buffer: &Vec<u16>, reported_len: usize) -> (r: Option<String>)
    ensures
        title_take_len(buffer@.len(), reported_len as nat) == 0 ==> r is None,
        title_take_len(buffer@.len(), reported_len as nat) > 0 ==> (r matches Some(t) && t@
            == utf16_lossy(
            buffer@.take(title_take_len(buffer@.len(), reported_len as nat) as int),
        )),
{
    let cap = if buffer.len() < MAX_TITLE_UNITS {
        buffer.len()
    } else {
        MAX_TITLE_UNITS
    };
    let n = if reported_len < cap {
        reported_len
    } else {
        cap
    };
    if n == 0 {
        None
    } else {
        Some(decode_utf16_lossy(buffer, n))
    }
}

} // verus!
