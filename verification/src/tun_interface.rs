//! What the TUN device needs that is not I/O: its mode, and the first utun
//! unit that `ifconfig -l` does not list (macOS).
use vstd::prelude::*;

verus! {

/// The kind of device.
#[derive(Copy, Clone, Debug, PartialEq, Eq, Structural, Hash)]
pub enum Mode {
    /// TUN mode: IP packets, after a four byte header.
    Tun,
    /// TAP mode: ethernet frames.
    Tap,
}

impl Mode {
    /// The number the system call takes: 1 for TUN, 2 for TAP.
    pub fn into_primitive(self) -> (r: u8)
        ensures
            r == match self {
                Mode::Tun => 1u8,
                Mode::Tap => 2u8,
            },
    {
        match self {
            Mode::Tun => 1,
            Mode::Tap => 2,
        }
    }
}

/// Interface names are separated by spaces and newlines.
pub open spec fn is_sep(c: u8) -> bool {
    c == 32 || c == 10
}

/// Whether bytes `s` to `e` of `b` are one of the pieces that splitting `b` at
/// every separator gives (empty pieces included).
pub open spec fn is_token(b: Seq<u8>, s: int, e: int) -> bool {
    &&& 0 <= s <= e <= b.len()
    &&& (s == 0 || is_sep(b[s - 1]))
    &&& (e == b.len() || is_sep(b[e]))
    &&& forall|k: int| s <= k < e ==> !is_sep(#[trigger] b[k])
}

/// Whether `t` starts with "utun".
pub open spec fn starts_utun(t: Seq<u8>) -> bool {
    t.len() >= 4 && t[0] == 117 && t[1] == 116 && t[2] == 117 && t[3] == 110
}

/// `t` with every "utun" taken out, from left to right.
pub open spec fn remove_utun(t: Seq<u8>) -> Seq<u8>
    decreases t.len(),
{
    if t.len() == 0 {
        Seq::empty()
    } else if starts_utun(t) {
        remove_utun(t.skip(4))
    } else {
        seq![t[0]] + remove_utun(t.skip(1))
    }
}

/// The decimal value of a string of digits.
pub open spec fn digits_value(d: Seq<u8>) -> int
    decreases d.len(),
{
    if d.len() == 0 {
        0
    } else {
        digits_value(d.drop_last()) * 10 + (d.last() - 48)
    }
}

pub open spec fn all_digits(d: Seq<u8>) -> bool {
    forall|k: int| 0 <= k < d.len() ==> 48 <= #[trigger] d[k] <= 57
}

/// The `u32` that a string reads as: an optional plus sign, then at least one
/// digit and nothing else, of a value that fits.
pub open spec fn parse_u32(s: Seq<u8>) -> Option<int> {
    let d = if s.len() > 0 && s[0] == 43 {
        s.skip(1)
    } else {
        s
    };
    if d.len() > 0 && all_digits(d) && digits_value(d) <= u32::MAX {
        Some(digits_value(d))
    } else {
        None
    }
}

/// Whether the interface list `b` names utun unit `i`: a name that starts
/// with "utun" and reads as `i` once every "utun" is taken out.
pub open spec fn utun_used(b: Seq<u8>, i: int) -> bool {
    exists|s: int, e: int|
        #![trigger is_token(b, s, e), parse_u32(remove_utun(b.subrange(s, e)))]
        is_token(b, s, e) && starts_utun(b.subrange(s, e)) && parse_u32(
            remove_utun(b.subrange(s, e)),
        ) == Some(i)
}

fn is_utun_start(t: &[u8], i: usize) -> (r: bool)
    requires
        i <= t@.len(),
    ensures
        r == starts_utun(t@.skip(i as int)),
{
    t.len() >= 4 && i <= t.len() - 4 && t[i] == 117 && t[i + 1] == 116 && t[i + 2] == 117 && t[i + 3] == 110
}

fn remove_utun_exec(t: &[u8]) -> (r: Vec<u8>)
    ensures
        r@ == remove_utun(t@),
{
    let mut r: Vec<u8> = Vec::new();
    let mut i: usize = 0;
    assert(t@.skip(0) =~= t@);
    while i < t.len()
        invariant
            i <= t@.len(),
            r@ + remove_utun(t@.skip(i as int)) == remove_utun(t@),
        decreases t.len() - i,
    {
        if is_utun_start(t, i) {
            assert(t@.skip(i as int).skip(4) =~= t@.skip(i + 4));
            i = i + 4;
        } else {
            assert(t@.skip(i as int).skip(1) =~= t@.skip(i + 1));
            assert(t@.skip(i as int)[0] == t@[i as int]);
            r.push(t[i]);
            i = i + 1;
        }
    }
    assert(t@.skip(i as int) =~= Seq::<u8>::empty());
    r
}

/// The value a string reads as, when it is below 99.
fn parse_small(s: &[u8]) -> (r: Option<usize>)
    ensures
        r matches Some(v) ==> v < 99 && parse_u32(s@) == Some(v as int),
        r is None ==> !(parse_u32(s@) matches Some(v) && v < 99),
{
    let start: usize = if s.len() > 0 && s[0] == 43 {
        1
    } else {
        0
    };
    let ghost d = s@.skip(start as int);
    if start >= s.len() {
        return None;
    }
    let mut value: usize = 0;
    let mut i: usize = start;
    assert(s@.subrange(start as int, start as int) =~= Seq::<u8>::empty());
    while i < s.len()
        invariant
            start <= i <= s@.len(),
            start == (if s@.len() > 0 && s@[0] == 43 {
                1usize
            } else {
                0usize
            }),
            d == s@.skip(start as int),
            all_digits(s@.subrange(start as int, i as int)),
            value == if digits_value(s@.subrange(start as int, i as int)) < 1000 {
                digits_value(s@.subrange(start as int, i as int))
            } else {
                1000
            },
            0 <= digits_value(s@.subrange(start as int, i as int)),
        decreases s.len() - i,
    {
        let c = s[i];
        if c < 48 || c > 57 {
            assert(!all_digits(d)) by {
                assert(d[i - start] == c);
            }
            if start == 0 {
                assert(d =~= s@);
            }
            assert(d == if s@.len() > 0 && s@[0] == 43 {
                s@.skip(1)
            } else {
                s@
            });
            return None;
        }
        let ghost prev = s@.subrange(start as int, i as int);
        let ghost next = s@.subrange(start as int, i + 1);
        assert(next.drop_last() =~= prev);
        assert(next.last() == c);
        assert(all_digits(next));
        value = if value * 10 + (c - 48) as usize >= 1000 {
            1000
        } else {
            value * 10 + (c - 48) as usize
        };
        i = i + 1;
    }
    assert(s@.subrange(start as int, i as int) =~= d);
    if start == 0 {
        assert(d =~= s@);
    }
    assert(d == if s@.len() > 0 && s@[0] == 43 {
        s@.skip(1)
    } else {
        s@
    });
    if value < 99 {
        Some(value)
    } else {
        None
    }
}

/// Whether the piece `t` of an interface list names utun unit `v`.
pub open spec fn names_utun(t: Seq<u8>, v: int) -> bool {
    starts_utun(t) && parse_u32(remove_utun(t)) == Some(v)
}

/// Whether some piece of `b` that ends before `pos` names utun unit `v`.
pub open spec fn named_before(b: Seq<u8>, pos: int, v: int) -> bool {
    exists|s: int, e: int|
        #![trigger is_token(b, s, e), names_utun(b.subrange(s, e), v)]
        is_token(b, s, e) && e < pos && names_utun(b.subrange(s, e), v)
}

/// Marks the unit that bytes `start` to `end` of `b` name, if below 99.
fn mark_token(b: &[u8], start: usize, end: usize, used: &mut Vec<bool>)
    requires
        start <= end <= b@.len(),
        old(used)@.len() == 99,
    ensures
        final(used)@.len() == 99,
        forall|v: int|
            0 <= v < 99 ==> (#[trigger] final(used)@[v] == (old(used)@[v] || names_utun(
                b@.subrange(start as int, end as int),
                v,
            ))),
{
    let t = vstd::slice::slice_subrange(b, start, end);
    assert(t@.skip(0) =~= t@);
    if is_utun_start(t, 0) {
        let rest = remove_utun_exec(t);
        match parse_small(rest.as_slice()) {
            Some(v) => {
                used.set(v, true);
            },
            None => {},
        }
    }
}

/// The first utun unit below 99 that the interface list `interfaces` (the
/// output of `ifconfig -l`) does not name, if any.
pub fn first_free_utun(interfaces: &[u8]) -> (r: Option<u32>)
    ensures
        r matches Some(i) ==> i < 99 && !utun_used(interfaces@, i as int) && forall|j: int|
            0 <= j < i ==> utun_used(interfaces@, j),
        r is None ==> forall|j: int| 0 <= j < 99 ==> utun_used(interfaces@, j),
{
    let ghost b = interfaces@;
    let mut used: Vec<bool> = Vec::new();
    let mut k: usize = 0;
    while k < 99
        invariant
            k <= 99,
            used@.len() == k,
            forall|j: int| 0 <= j < k ==> !(#[trigger] used@[j]),
        decreases 99 - k,
    {
        used.push(false);
        k = k + 1;
    }
    let mut start: usize = 0;
    let mut pos: usize = 0;
    while pos < interfaces.len()
        invariant
            b == interfaces@,
            used@.len() == 99,
            start <= pos <= b.len(),
            start == 0 || is_sep(b[start - 1]),
            forall|k: int| start <= k < pos ==> !is_sep(#[trigger] b[k]),
            forall|v: int| 0 <= v < 99 ==> (#[trigger] used@[v] <==> named_before(b, pos as int, v)),
        decreases b.len() - pos,
    {
        let c = interfaces[pos];
        if c == 32 || c == 10 {
            let ghost old_used = used@;
            assert(is_token(b, start as int, pos as int));
            mark_token(interfaces, start, pos, &mut used);
            assert forall|v: int| 0 <= v < 99 implies (#[trigger] used@[v] <==> named_before(
                b,
                pos + 1,
                v,
            )) by {
                if named_before(b, pos + 1, v) {
                    let (s, e) = choose|s: int, e: int|
                        #![trigger is_token(b, s, e), names_utun(b.subrange(s, e), v)]
                        is_token(b, s, e) && e < pos + 1 && names_utun(b.subrange(s, e), v);
                    if e == pos {
                        if s < start {
                            assert(!is_sep(b[start - 1]));
                        } else if s > start {
                            assert(!is_sep(b[s - 1]));
                        }
                    } else {
                        assert(named_before(b, pos as int, v));
                    }
                }
                if used@[v] && !old_used[v] {
                    assert(is_token(b, start as int, pos as int) && names_utun(
                        b.subrange(start as int, pos as int),
                        v,
                    ));
                }
                if old_used[v] {
                    let (s, e) = choose|s: int, e: int|
                        #![trigger is_token(b, s, e), names_utun(b.subrange(s, e), v)]
                        is_token(b, s, e) && e < pos && names_utun(b.subrange(s, e), v);
                    assert(is_token(b, s, e) && e < pos + 1);
                }
            }
            start = pos + 1;
        } else {
            assert forall|v: int| 0 <= v < 99 implies (#[trigger] used@[v] <==> named_before(
                b,
                pos + 1,
                v,
            )) by {
                if named_before(b, pos + 1, v) {
                    let (s, e) = choose|s: int, e: int|
                        #![trigger is_token(b, s, e), names_utun(b.subrange(s, e), v)]
                        is_token(b, s, e) && e < pos + 1 && names_utun(b.subrange(s, e), v);
                    assert(e != pos);
                    assert(named_before(b, pos as int, v));
                }
                if used@[v] {
                    let (s, e) = choose|s: int, e: int|
                        #![trigger is_token(b, s, e), names_utun(b.subrange(s, e), v)]
                        is_token(b, s, e) && e < pos && names_utun(b.subrange(s, e), v);
                    assert(is_token(b, s, e) && e < pos + 1);
                }
            }
        }
        pos = pos + 1;
    }
    let ghost old_used = used@;
    assert(is_token(b, start as int, pos as int));
    mark_token(interfaces, start, pos, &mut used);
    assert forall|v: int| 0 <= v < 99 implies (#[trigger] used@[v] <==> utun_used(b, v)) by {
        if utun_used(b, v) {
            let (s, e) = choose|s: int, e: int|
                #![trigger is_token(b, s, e), parse_u32(remove_utun(b.subrange(s, e)))]
                is_token(b, s, e) && starts_utun(b.subrange(s, e)) && parse_u32(
                    remove_utun(b.subrange(s, e)),
                ) == Some(v);
            assert(names_utun(b.subrange(s, e), v));
            if e == pos {
                if s < start {
                    assert(!is_sep(b[start - 1]));
                } else if s > start {
                    assert(!is_sep(b[s - 1]));
                }
            } else {
                assert(named_before(b, pos as int, v));
            }
        }
        if used@[v] {
            if old_used[v] {
                let (s, e) = choose|s: int, e: int|
                    #![trigger is_token(b, s, e), names_utun(b.subrange(s, e), v)]
                    is_token(b, s, e) && e < pos && names_utun(b.subrange(s, e), v);
                assert(is_token(b, s, e) && starts_utun(b.subrange(s, e)) && parse_u32(
                    remove_utun(b.subrange(s, e)),
                ) == Some(v));
            } else {
                assert(is_token(b, start as int, pos as int) && starts_utun(
                    b.subrange(start as int, pos as int),
                ) && parse_u32(remove_utun(b.subrange(start as int, pos as int))) == Some(v));
            }
        }
    }
    let mut i: usize = 0;
    while i < 99
        invariant
            b == interfaces@,
            used@.len() == 99,
            forall|j: int| 0 <= j < i ==> used@[j],
            forall|v: int| 0 <= v < 99 ==> (#[trigger] used@[v] <==> utun_used(b, v)),
        decreases 99 - i,
    {
        if !used[i] {
            assert(!utun_used(b, i as int));
            assert forall|j: int| 0 <= j < i implies utun_used(b, j) by {
                assert(used@[j]);
            }
            return Some(i as u32);
        }
        i = i + 1;
    }
    assert forall|j: int| 0 <= j < 99 implies utun_used(b, j) by {
        assert(used@[j]);
    }
    None
}

} // verus!
