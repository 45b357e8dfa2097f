//! Lexical path handling for the sandboxed directory tree.
//!
//! The server models a path as its sequence of components. A textual path is
//! split on `/`; resolving it against a base directory walks the components,
//! ignoring empty ones and `.`, stepping up on `..`, and descending
//! otherwise. Sandbox containment is a genuine component-wise prefix check
//! against the home directory, and the display form shown to clients is
//! `~/` followed by each component under the home with a trailing `/`.

use vstd::prelude::*;

verus! {

/// Splits a character sequence on `/`. Every sequence yields at least one
/// (possibly empty) component; `n` separators yield `n + 1` components.
pub open spec fn spec_split(s: Seq<char>) -> Seq<Seq<char>>
    decreases s.len(),
{
    if s.len() == 0 {
        seq![Seq::<char>::empty()]
    } else {
        let rest = spec_split(s.drop_last());
        if s.last() == '/' {
            rest.push(Seq::<char>::empty())
        } else {
            rest.update(rest.len() - 1, rest.last().push(s.last()))
        }
    }
}

/// Splitting yields at least one component.
pub proof fn lemma_spec_split_nonempty(s: Seq<char>)
    ensures
        spec_split(s).len() >= 1,
    decreases s.len(),
{
    if s.len() > 0 {
        lemma_spec_split_nonempty(s.drop_last());
    }
}

/// A component that resolution passes over: empty, or the current directory.
pub open spec fn skip_component(p: Seq<char>) -> bool {
    p.len() == 0 || p == seq!['.']
}

/// The parent-directory component.
pub open spec fn parent_component(p: Seq<char>) -> bool {
    p == seq!['.', '.']
}

/// One resolution step: where one more component leads from `base`.
pub open spec fn spec_resolve_step(base: Seq<Seq<char>>, p: Seq<char>) -> Seq<Seq<char>> {
    if skip_component(p) {
        base
    } else if parent_component(p) {
        if base.len() > 0 {
            base.drop_last()
        } else {
            base
        }
    } else {
        base.push(p)
    }
}

/// Where a component sequence leads from `base`, one component at a time.
pub open spec fn spec_resolve(base: Seq<Seq<char>>, parts: Seq<Seq<char>>) -> Seq<Seq<char>>
    decreases parts.len(),
{
    if parts.len() == 0 {
        base
    } else {
        spec_resolve(spec_resolve_step(base, parts[0]), parts.drop_first())
    }
}

/// Component-wise prefix: every component of `pre` heads `full`.
pub open spec fn is_path_prefix(pre: Seq<Seq<char>>, full: Seq<Seq<char>>) -> bool {
    pre.len() <= full.len() && forall|i: int| 0 <= i < pre.len() ==> pre[i] == full[i]
}

/// The components joined with one `/` after each.
pub open spec fn spec_joined(parts: Seq<Seq<char>>) -> Seq<char>
    decreases parts.len(),
{
    if parts.len() == 0 {
        Seq::<char>::empty()
    } else {
        spec_joined(parts.drop_last()) + parts.last() + seq!['/']
    }
}

/// The display form of `cwd` under `home`: `~/`, then each component below
/// the home directory with a trailing `/`.
pub open spec fn spec_display_path(home: Seq<Seq<char>>, cwd: Seq<Seq<char>>) -> Seq<char>
    recommends
        is_path_prefix(home, cwd),
{
    seq!['~', '/'] + spec_joined(cwd.skip(home.len() as int))
}

/// The canonical textual form of an absolute component path: one `/` before
/// each component. An empty component sequence yields the empty text.
pub open spec fn spec_abs_path(parts: Seq<Seq<char>>) -> Seq<char>
    decreases parts.len(),
{
    if parts.len() == 0 {
        Seq::<char>::empty()
    } else {
        spec_abs_path(parts.drop_last()) + seq!['/'] + parts.last()
    }
}

/// Builds the canonical textual form of an absolute component path.
pub fn join_components(parts: &Vec<String>) -> (r: String)
    ensures
        r@ == spec_abs_path(parts.deep_view()),
{
    let mut r: String = String::new();
    let n: usize = parts.len();
    let mut i: usize = 0;
    proof {
        assert(parts.deep_view().take(0).len() == 0);
    }
    while i < n
        invariant
            0 <= i <= n == parts@.len(),
            r@ == spec_abs_path(parts.deep_view().take(i as int)),
        decreases n - i,
    {
        r.append("/");
        r.append(parts[i].as_str());
        proof {
            reveal_strlit("/");
            assert("/"@ =~= seq!['/']);
            let t = parts.deep_view().take(i as int + 1);
            assert(t.drop_last() =~= parts.deep_view().take(i as int));
            assert(t.last() == parts.deep_view()[i as int]);
            assert(parts.deep_view()[i as int] == parts@[i as int]@);
            assert(r@ =~= spec_abs_path(t));
        }
        i = i + 1;
    }
    proof {
        assert(parts.deep_view().take(n as int) =~= parts.deep_view());
    }
    r
}

/// Splits a textual path into its components.
pub fn split_path(s: &String) -> (r: Vec<String>)
    ensures
        r.deep_view() == spec_split(s@),
        r@.len() >= 1,
{
    let sl: &str = s.as_str();
    let n: usize = sl.unicode_len();
    let mut r: Vec<String> = Vec::new();
    let mut start: usize = 0;
    let mut i: usize = 0;
    proof {
        assert(s@.take(0).len() == 0);
        assert(r.deep_view() + seq![s@.subrange(0, 0)] =~~= seq![Seq::<char>::empty()]);
    }
    while i < n
        invariant
            0 <= start <= i <= n,
            n == sl@.len(),
            sl@ == s@,
            spec_split(s@.take(i as int)) == r.deep_view() + seq![s@.subrange(start as int, i as int)],
        decreases n - i,
    {
        let c = sl.get_char(i);
        proof {
            let t = s@.take(i as int + 1);
            assert(t.drop_last() =~= s@.take(i as int));
            assert(t.last() == s@[i as int]);
            lemma_spec_split_nonempty(s@.take(i as int));
        }
        if c == '/' {
            let comp = sl.substring_char(start, i).to_owned();
            let ghost old_dv = r.deep_view();
            r.push(comp);
            start = i + 1;
            proof {
                assert(r.deep_view() =~~= old_dv.push(comp@));
                assert(spec_split(s@.take(i as int + 1)) =~~= r.deep_view() + seq![
                    s@.subrange(i as int + 1, i as int + 1),
                ]);
            }
        } else {
            proof {
                let rest = spec_split(s@.take(i as int));
                assert(rest.last() == s@.subrange(start as int, i as int));
                assert(rest.update(rest.len() - 1, rest.last().push(s@[i as int])) =~~= r.deep_view()
                    + seq![s@.subrange(start as int, i as int).push(s@[i as int])]);
                assert(s@.subrange(start as int, i as int).push(s@[i as int]) =~= s@.subrange(
                    start as int,
                    i as int + 1,
                ));
            }
        }
        i = i + 1;
    }
    let comp = sl.substring_char(start, n).to_owned();
    let ghost old_dv = r.deep_view();
    r.push(comp);
    proof {
        assert(s@.take(n as int) =~= s@);
        assert(r.deep_view() =~~= old_dv.push(comp@));
        assert(r.deep_view() =~~= spec_split(s@));
    }
    r
}

/// Whether this component is passed over by resolution.
fn is_skip_component(p: &String) -> (r: bool)
    ensures
        r == skip_component(p@),
{
    let dot: String = ".".to_owned();
    proof {
        reveal_strlit(".");
        assert(dot@ =~= seq!['.']);
    }
    p.as_str().unicode_len() == 0 || *p == dot
}

/// Whether this component is the parent-directory step.
fn is_parent_component(p: &String) -> (r: bool)
    ensures
        r == parent_component(p@),
{
    let dotdot: String = "..".to_owned();
    proof {
        reveal_strlit("..");
        assert(dotdot@ =~= seq!['.', '.']);
    }
    *p == dotdot
}

/// Copies a component path.
pub fn clone_components(v: &Vec<String>) -> (r: Vec<String>)
    ensures
        r.deep_view() == v.deep_view(),
        r@.len() == v@.len(),
{
    let mut r: Vec<String> = Vec::new();
    let n: usize = v.len();
    let mut i: usize = 0;
    while i < n
        invariant
            0 <= i <= n == v@.len(),
            r@.len() == i,
            forall|j: int| 0 <= j < i ==> r@[j]@ == v@[j]@,
        decreases n - i,
    {
        let c = v[i].clone();
        proof {
            assert(c@ == v@[i as int]@);
        }
        r.push(c);
        i = i + 1;
    }
    proof {
        assert(r.deep_view() =~~= v.deep_view());
    }
    r
}

/// Resolves a component sequence against a base directory.
pub fn resolve_components(base: &Vec<String>, parts: &Vec<String>) -> (r: Vec<String>)
    ensures
        r.deep_view() == spec_resolve(base.deep_view(), parts.deep_view()),
{
    let mut r = clone_components(base);
    let n: usize = parts.len();
    let mut i: usize = 0;
    proof {
        assert(parts.deep_view().skip(0) =~~= parts.deep_view());
    }
    while i < n
        invariant
            0 <= i <= n == parts@.len(),
            spec_resolve(base.deep_view(), parts.deep_view()) == spec_resolve(
                r.deep_view(),
                parts.deep_view().skip(i as int),
            ),
        decreases n - i,
    {
        let ghost old_dv = r.deep_view();
        let ghost rem = parts.deep_view().skip(i as int);
        proof {
            assert(rem[0] == parts.deep_view()[i as int]);
            assert(parts.deep_view()[i as int] == parts@[i as int]@);
            assert(rem.drop_first() =~~= parts.deep_view().skip(i as int + 1));
        }
        let p = &parts[i];
        if is_skip_component(p) {
        } else if is_parent_component(p) {
            if r.len() > 0 {
                r.pop();
                proof {
                    assert(r.deep_view() =~~= old_dv.drop_last());
                }
            }
        } else {
            r.push(p.clone());
            proof {
                assert(r.deep_view() =~~= old_dv.push(p@));
            }
        }
        i = i + 1;
    }
    proof {
        assert(parts.deep_view().skip(n as int) =~~= Seq::<Seq<char>>::empty());
    }
    r
}

/// Whether `pre` is a component-wise prefix of `full`: the sandbox
/// containment check.
pub fn path_has_prefix(pre: &Vec<String>, full: &Vec<String>) -> (r: bool)
    ensures
        r == is_path_prefix(pre.deep_view(), full.deep_view()),
{
    let np: usize = pre.len();
    let nf: usize = full.len();
    if np > nf {
        return false;
    }
    let mut i: usize = 0;
    while i < np
        invariant
            0 <= i <= np == pre@.len(),
            np <= nf == full@.len(),
            forall|j: int| 0 <= j < i ==> pre.deep_view()[j] == full.deep_view()[j],
        decreases np - i,
    {
        if !(pre[i] == full[i]) {
            proof {
                assert(pre.deep_view()[i as int] == pre@[i as int]@);
                assert(full.deep_view()[i as int] == full@[i as int]@);
            }
            return false;
        }
        proof {
            assert(pre.deep_view()[i as int] == pre@[i as int]@);
            assert(full.deep_view()[i as int] == full@[i as int]@);
        }
        i = i + 1;
    }
    true
}

/// Builds the display form of `cwd` under `home`.
pub fn display_path(home: &Vec<String>, cwd: &Vec<String>) -> (r: String)
    requires
        is_path_prefix(home.deep_view(), cwd.deep_view()),
    ensures
        r@ == spec_display_path(home.deep_view(), cwd.deep_view()),
{
    let mut r: String = "~/".to_owned();
    proof {
        reveal_strlit("~/");
        assert(r@ =~= seq!['~', '/']);
    }
    let nh: usize = home.len();
    let nf: usize = cwd.len();
    let mut i: usize = nh;
    while i < nf
        invariant
            nh <= i <= nf == cwd@.len(),
            nh == home@.len(),
            r@ == seq!['~', '/'] + spec_joined(cwd.deep_view().subrange(nh as int, i as int)),
        decreases nf - i,
    {
        r.append(cwd[i].as_str());
        r.append("/");
        proof {
            reveal_strlit("/");
            let sub = cwd.deep_view().subrange(nh as int, i as int + 1);
            assert(sub.drop_last() =~= cwd.deep_view().subrange(nh as int, i as int));
            assert(sub.last() == cwd.deep_view()[i as int]);
            assert("/"@ =~= seq!['/']);
            assert(r@ =~= seq!['~', '/'] + spec_joined(sub));
        }
        i = i + 1;
    }
    proof {
        assert(cwd.deep_view().subrange(nh as int, nf as int) =~= cwd.deep_view().skip(nh as int));
    }
    r
}

/// Entering a directory through one ordinary component and then resolving the
/// parent component leads back to the directory where it started.
pub proof fn lemma_enter_then_parent_returns(base: Seq<Seq<char>>, sub: Seq<char>)
    requires
        !skip_component(sub),
        !parent_component(sub),
    ensures
        spec_resolve(spec_resolve(base, seq![sub]), seq![seq!['.', '.']]) == base,
{
    let one = seq![sub];
    let up = seq![seq!['.', '.']];
    assert(one.drop_first() =~~= Seq::<Seq<char>>::empty());
    assert(up.drop_first() =~~= Seq::<Seq<char>>::empty());
    assert(one[0] == sub);
    assert(spec_resolve_step(base, sub) == base.push(sub));
    assert(spec_resolve(base.push(sub), one.drop_first()) == base.push(sub));
    assert(spec_resolve(base, one) == base.push(sub));
    assert(up[0] == seq!['.', '.']);
    assert(seq!['.', '.'].len() == 2);
    assert(seq!['.'].len() == 1);
    assert(!skip_component(up[0]));
    assert(parent_component(up[0]));
    let entered = base.push(sub);
    assert(entered.len() > 0);
    assert(spec_resolve_step(entered, up[0]) == entered.drop_last());
    assert(entered.drop_last() =~~= base);
    assert(spec_resolve(spec_resolve_step(entered, up[0]), up.drop_first()) == base);
}

/// Returning law: a request for one ordinary name followed by a request for
/// `..` resolves back to the directory where it started, so its display path
/// is restored.
pub proof fn lemma_cd_enter_then_parent(cwd: Seq<Seq<char>>, sub: Seq<char>, up: Seq<char>)
    requires
        forall|i: int| 0 <= i < sub.len() ==> sub[i] != '/',
        !skip_component(sub),
        !parent_component(sub),
        up == seq!['.', '.'],
    ensures
        spec_resolve(spec_resolve(cwd, spec_split(sub)), spec_split(up)) == cwd,
{
    lemma_split_single(sub);
    assert(forall|i: int| 0 <= i < up.len() ==> up[i] != '/');
    lemma_split_single(up);
    lemma_enter_then_parent_returns(cwd, sub);
}

/// A textual path without separators splits into that single component.
pub proof fn lemma_split_single(s: Seq<char>)
    requires
        forall|i: int| 0 <= i < s.len() ==> s[i] != '/',
    ensures
        spec_split(s) == seq![s],
    decreases s.len(),
{
    if s.len() == 0 {
        assert(s =~= Seq::<char>::empty());
        assert(spec_split(s) =~~= seq![s]);
    } else {
        lemma_split_single(s.drop_last());
        let rest = spec_split(s.drop_last());
        assert(rest == seq![s.drop_last()]);
        assert(rest.update(rest.len() - 1, rest.last().push(s.last())) =~~= seq![
            s.drop_last().push(s.last()),
        ]);
        assert(s.drop_last().push(s.last()) =~= s);
        assert(spec_split(s) =~~= seq![s]);
    }
}

} // verus!
