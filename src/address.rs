use vstd::prelude::*;
use vstd::string::*;

verus! {

/// The characters of `s` before the first `stop`, or all of `s`.
pub open spec fn prefix_before(s: Seq<char>, stop: char) -> Seq<char>
    decreases s.len(),
{
    if s.len() == 0 || s[0] == stop {
        Seq::empty()
    } else {
        seq![s[0]] + prefix_before(s.drop_first(), stop)
    }
}

/// The host part of an address: a bracketed host (`[::1]`) up to and
/// including its closing bracket; otherwise everything before the first `:`.
pub open spec fn host_spec(addr: Seq<char>) -> Seq<char> {
    if addr.len() > 0 && addr[0] == '[' {
        let inner = prefix_before(addr.drop_first(), ']');
        if inner.len() + 1 < addr.len() {
            addr.subrange(0, inner.len() + 2int)
        } else {
            addr
        }
    } else {
        prefix_before(addr, ':')
    }
}

/// `needle` occurs in `hay` as a contiguous run of characters.
pub open spec fn occurs_in(needle: Seq<char>, hay: Seq<char>) -> bool {
    exists|i: int| 0 <= i && i + needle.len() <= hay.len() && #[trigger] hay.subrange(i, i + needle.len()) == needle
}

/// Loopback and unspecified hosts, which are never sent to the geographic
/// lookup service: all of `127.0.0.0/8`, `0.0.0.0`, `localhost` and `[::1]`.
pub open spec fn is_local_spec(host: Seq<char>) -> bool {
    ||| host.len() >= 4 && host.subrange(0, 4) == "127."@
    ||| host == "0.0.0.0"@
    ||| host == "localhost"@
    ||| host == "[::1]"@
}

/// The text of an optional address, absent counting as empty.
pub open spec fn text_or_empty(a: Option<String>) -> Seq<char> {
    match a {
        Some(s) => s@,
        None => Seq::empty(),
    }
}

proof fn lemma_prefix_before(addr: Seq<char>, stop: char, i: int)
    requires
        0 <= i <= addr.len(),
        forall|j: int| 0 <= j < i ==> addr[j] != stop,
        i == addr.len() || addr[i] == stop,
    ensures
        prefix_before(addr, stop) == addr.subrange(0, i),
    decreases i,
{
    if i == 0 {
        assert(addr.subrange(0, 0) =~= Seq::<char>::empty());
    } else {
        let rest = addr.drop_first();
        assert forall|j: int| 0 <= j < i - 1 implies rest[j] != stop by {
            assert(rest[j] == addr[j + 1]);
        }
        if i < addr.len() {
            assert(rest[i - 1] == addr[i]);
        }
        lemma_prefix_before(rest, stop, i - 1);
        assert(addr.subrange(0, i) =~= seq![addr[0]] + rest.subrange(0, i - 1));
    }
}

/// Characterwise equality of two strings.
pub fn text_equals(a: &str, b: &str) -> (r: bool)
    ensures
        r == (a@ == b@),
{
    let n = a.unicode_len();
    if n != b.unicode_len() {
        return false;
    }
    let mut i: usize = 0;
    while i < n
        invariant
            n == a@.len(),
            n == b@.len(),
            0 <= i <= n,
            forall|j: int| 0 <= j < i ==> a@[j] == b@[j],
        decreases n - i,
    {
        if a.get_char(i) != b.get_char(i) {
            return false;
        }
        i = i + 1;
    }
    assert(a@ =~= b@);
    true
}

/// The index of the first `stop` in `s` at or after `from`, or its length.
fn find_char(s: &str, stop: char, from: usize) -> (r: usize)
    requires
        from <= s@.len(),
    ensures
        from <= r <= s@.len(),
        forall|j: int| from <= j < r ==> s@[j] != stop,
        r == s@.len() || s@[r as int] == stop,
{
    let n = s.unicode_len();
    let mut i: usize = from;
    while i < n && s.get_char(i) != stop
        invariant
            n == s@.len(),
            from <= i <= n,
            forall|j: int| from <= j < i ==> s@[j] != stop,
        decreases n - i,
    {
        i = i + 1;
    }
    i
}

/// The host part of an address, with any `:port` suffix removed; a
/// bracketed host keeps its brackets.
pub fn host_of(addr: &str) -> (r: String)
    ensures
        r@ == host_spec(addr@),
{
    let n = addr.unicode_len();
    if n > 0 && addr.get_char(0) == '[' {
        let close = find_char(addr, ']', 1);
        proof {
            let rest = addr@.drop_first();
            assert forall|j: int| 0 <= j < close - 1 implies rest[j] != ']' by {
                assert(rest[j] == addr@[j + 1]);
            }
            if close < n {
                assert(rest[close - 1] == addr@[close as int]);
            }
            lemma_prefix_before(rest, ']', close - 1);
        }
        if close < n {
            String::from_str(addr.substring_char(0, close + 1))
        } else {
            proof {
                assert(addr@.subrange(0, n as int) =~= addr@);
            }
            String::from_str(addr.substring_char(0, n))
        }
    } else {
        let colon = find_char(addr, ':', 0);
        proof {
            lemma_prefix_before(addr@, ':', colon as int);
        }
        String::from_str(addr.substring_char(0, colon))
    }
}

/// Whether `needle` occurs somewhere in `hay`.
pub fn contains_text(hay: &str, needle: &str) -> (r: bool)
    ensures
        r == occurs_in(needle@, hay@),
{
    let n = hay.unicode_len();
    let m = needle.unicode_len();
    if m > n {
        proof {
            assert forall|i: int| 0 <= i && i + needle@.len() <= hay@.len() implies
                #[trigger] hay@.subrange(i, i + needle@.len()) != needle@ by {}
        }
        return false;
    }
    let mut start: usize = 0;
    while start <= n - m
        invariant
            n == hay@.len(),
            m == needle@.len(),
            m <= n,
            0 <= start <= n - m + 1,
            forall|i: int| 0 <= i < start ==> #[trigger] hay@.subrange(i, i + m) != needle@,
        decreases n - m + 1 - start,
    {
        let mut k: usize = 0;
        let mut same = true;
        while k < m
            invariant
                n == hay@.len(),
                m == needle@.len(),
                start + m <= n,
                0 <= k <= m,
                same == (forall|j: int| 0 <= j < k ==> hay@[start + j] == needle@[j]),
            decreases m - k,
        {
            if hay.get_char(start + k) != needle.get_char(k) {
                same = false;
            }
            k = k + 1;
        }
        if same {
            assert(hay@.subrange(start as int, start + m) =~= needle@);
            return true;
        }
        proof {
            if hay@.subrange(start as int, start + m) == needle@ {
                assert forall|j: int| 0 <= j < m implies hay@[start + j] == needle@[j] by {
                    assert(hay@.subrange(start as int, start + m)[j] == hay@[start + j]);
                }
            }
        }
        start = start + 1;
    }
    proof {
        assert forall|i: int| 0 <= i && i + needle@.len() <= hay@.len() implies
            #[trigger] hay@.subrange(i, i + needle@.len()) != needle@ by {
            assert(i < start);
        }
    }
    false
}

/// Whether a host is a loopback or unspecified address.
pub fn is_local_host(host: &str) -> (r: bool)
    ensures
        r == is_local_spec(host@),
{
    proof {
        reveal_strlit("127.");
        reveal_strlit("0.0.0.0");
        reveal_strlit("localhost");
        reveal_strlit("[::1]");
    }
    let n = host.unicode_len();
    let loopback_v4 = n >= 4 && text_equals(host.substring_char(0, 4), "127.");
    loopback_v4 || text_equals(host, "0.0.0.0") || text_equals(host, "localhost") || text_equals(host, "[::1]")
}

/// The address a latency probe connects to: the full address as reported,
/// port included, or nothing when it has no host part.
pub fn probe_target(address: &Option<String>) -> (r: Option<String>)
    ensures
        host_spec(text_or_empty(*address)).len() == 0 ==> r.is_none(),
        host_spec(text_or_empty(*address)).len() > 0 ==> r.is_some() && r.unwrap()@ == text_or_empty(*address),
{
    match address {
        Some(a) => {
            let host = host_of(a.as_str());
            if host.as_str().unicode_len() == 0 {
                None
            } else {
                Some(a.clone())
            }
        },
        None => None,
    }
}

/// The bare IP sent to the geographic lookup: the host part of the address,
/// or nothing when it is empty or local.
pub fn geo_target(address: &Option<String>) -> (r: Option<String>)
    ensures
        ({
            let h = host_spec(text_or_empty(*address));
            if h.len() == 0 || is_local_spec(h) {
                r.is_none()
            } else {
                r.is_some() && r.unwrap()@ == h
            }
        }),
{
    match address {
        Some(a) => {
            let host = host_of(a.as_str());
            if host.as_str().unicode_len() == 0 || is_local_host(host.as_str()) {
                None
            } else {
                Some(host)
            }
        },
        None => None,
    }
}

} // verus!
