use vstd::prelude::*;

verus! {

/// The placeholder that the winner template substitutes.
pub open spec fn spec_label_pattern() -> Seq<char> {
    seq!['{', 'l', 'a', 'b', 'e', 'l', '}']
}

/// Replacement of every occurrence of a pattern, left to right and without
/// overlap, exactly as the substitution of the winner template works: no
/// escaping, the replacement inserted verbatim.
pub open spec fn spec_replace(t: Seq<char>, pat: Seq<char>, rep: Seq<char>) -> Seq<char>
    decreases t.len(),
    when pat.len() > 0
{
    if t.len() < pat.len() {
        t
    } else if t.subrange(0, pat.len() as int) == pat {
        rep + spec_replace(t.skip(pat.len() as int), pat, rep)
    } else {
        t.subrange(0, 1) + spec_replace(t.skip(1), pat, rep)
    }
}

/// Whether the pattern occurs at position `i` of the template.
spec fn matches_at(t: Seq<char>, i: int) -> bool {
    &&& i + 7 <= t.len()
    &&& t.subrange(i, i + 7) == spec_label_pattern()
}

fn is_pattern_at(s: &str, i: usize, n: usize) -> (r: bool)
    requires
        n == s@.len(),
        i < n,
    ensures
        r == matches_at(s@, i as int),
{
    if n - i < 7 {
        proof {
            assert(!matches_at(s@, i as int));
        }
        return false;
    }
    let r = s.get_char(i) == '{' && s.get_char(i + 1) == 'l' && s.get_char(i + 2) == 'a'
        && s.get_char(i + 3) == 'b' && s.get_char(i + 4) == 'e' && s.get_char(i + 5) == 'l'
        && s.get_char(i + 6) == '}';
    proof {
        let sub = s@.subrange(i as int, i as int + 7);
        assert(sub.len() == 7);
        assert(sub[0] == s@[i as int] && sub[1] == s@[i as int + 1] && sub[2] == s@[i as int + 2]
            && sub[3] == s@[i as int + 3] && sub[4] == s@[i as int + 4] && sub[5] == s@[
            i as int + 5] && sub[6] == s@[i as int + 6]);
        if r {
            assert(sub =~= spec_label_pattern());
        } else {
            assert(sub != spec_label_pattern());
        }
    }
    r
}

/// The winner overlay's text: the template with every `{label}` placeholder
/// replaced verbatim by the winning label.
pub fn winner_message(template: &str, label: &str) -> (m: String)
    ensures
        m@ == spec_replace(template@, spec_label_pattern(), label@),
{
    let n = template.unicode_len();
    let mut out = String::new();
    let mut i: usize = 0;
    proof {
        assert(template@.skip(0) =~= template@);
        assert(out@ + spec_replace(template@, spec_label_pattern(), label@) =~= spec_replace(
            template@,
            spec_label_pattern(),
            label@,
        ));
    }
    while i < n
        invariant
            0 <= i <= n,
            n == template@.len(),
            out@ + spec_replace(template@.skip(i as int), spec_label_pattern(), label@)
                == spec_replace(template@, spec_label_pattern(), label@),
        decreases n - i,
    {
        let ghost rest = template@.skip(i as int);
        if is_pattern_at(template, i, n) {
            proof {
                assert(rest.len() >= 7);
                assert(rest.subrange(0, 7) =~= template@.subrange(i as int, i as int + 7));
                assert(rest.skip(7) =~= template@.skip(i as int + 7));
            }
            out.append(label);
            i = i + 7;
        } else {
            proof {
                if rest.len() >= 7 {
                    assert(rest.subrange(0, 7) =~= template@.subrange(i as int, i as int + 7));
                }
                assert(rest.subrange(0, 1) =~= template@.subrange(i as int, i as int + 1));
                assert(rest.skip(1) =~= template@.skip(i as int + 1));
            }
            let piece = template.substring_char(i, i + 1);
            out.append(piece);
            i = i + 1;
        }
    }
    proof {
        assert(template@.skip(i as int) =~= Seq::<char>::empty());
        assert(spec_replace(Seq::<char>::empty(), spec_label_pattern(), label@)
            =~= Seq::<char>::empty());
        assert(out@ + Seq::<char>::empty() =~= out@);
    }
    out
}

} // verus!
