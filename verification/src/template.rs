//! A generic named-placeholder template engine.
//!
//! A template is a string in which `{name}` marks a substitution point.
//! Rendering replaces every placeholder by the value bound to its name and
//! fails loudly when a referenced name has no binding, or when an opening
//! brace is never closed.

use vstd::prelude::*;
use vstd::string::*;

verus! {

/// How a substitution can fail: a placeholder whose name has no binding,
/// or an opening brace with no closing brace after it.
pub enum SubstErr {
    Missing(Seq<char>),
    Unclosed,
}

/// Index of the first `}` in `t`, or `t.len()` if there is none.
pub open spec fn find_close(t: Seq<char>) -> nat
    decreases t.len(),
{
    if t.len() == 0 {
        0
    } else if t[0] == '}' {
        0
    } else {
        (1 + find_close(t.skip(1))) as nat
    }
}

/// The meaning of rendering template `t` under the bindings `m`: literal
/// characters are kept, each `{name}` is replaced by `m[name]`, and the
/// first failure wins.
pub open spec fn subst(t: Seq<char>, m: Map<Seq<char>, Seq<char>>) -> Result<Seq<char>, SubstErr>
    decreases t.len(),
{
    if t.len() == 0 {
        Ok(Seq::empty())
    } else if t[0] == '{' {
        let k = find_close(t.skip(1)) as int;
        if k >= t.len() - 1 {
            Err(SubstErr::Unclosed)
        } else {
            let name = t.subrange(1, 1 + k);
            if m.contains_key(name) {
                match subst(t.skip(2 + k), m) {
                    Ok(rest) => Ok(m[name] + rest),
                    Err(e) => Err(e),
                }
            } else {
                Err(SubstErr::Missing(name))
            }
        }
    } else {
        match subst(t.skip(1), m) {
            Ok(rest) => Ok(seq![t[0]] + rest),
            Err(e) => Err(e),
        }
    }
}

/// The bindings denoted by a list of (name, value) pairs; an earlier pair
/// hides a later one with the same name.
pub open spec fn bindings(v: Seq<(String, String)>) -> Map<Seq<char>, Seq<char>>
    decreases v.len(),
{
    if v.len() == 0 {
        Map::empty()
    } else {
        bindings(v.skip(1)).insert(v[0].0@, v[0].1@)
    }
}

/// The binding a pair list denotes for `name` is the first pair that
/// carries it.
pub proof fn lemma_bindings_first(v: Seq<(String, String)>, name: Seq<char>, i: int)
    requires
        0 <= i < v.len(),
        v[i].0@ == name,
        forall|x: int| 0 <= x < i ==> v[x].0@ != name,
    ensures
        bindings(v).contains_key(name),
        bindings(v)[name] == v[i].1@,
    decreases i,
{
    if i > 0 {
        lemma_bindings_first(v.skip(1), name, i - 1);
    }
}

proof fn lemma_bindings_absent(v: Seq<(String, String)>, name: Seq<char>)
    requires
        forall|x: int| 0 <= x < v.len() ==> v[x].0@ != name,
    ensures
        !bindings(v).contains_key(name),
    decreases v.len(),
{
    if v.len() > 0 {
        lemma_bindings_absent(v.skip(1), name);
    }
}

/// First (name, value) pair of `vars` whose name is `name`, if any.
fn lookup<'a>(vars: &'a Vec<(String, String)>, name: &str) -> (r: Option<&'a String>)
    ensures
        match r {
            Some(v) => bindings(vars@).contains_key(name@) && v@ == bindings(vars@)[name@],
            None => !bindings(vars@).contains_key(name@),
        },
{
    let owned = String::from_str(name);
    let mut i: usize = 0;
    while i < vars.len()
        invariant
            0 <= i <= vars.len(),
            owned@ == name@,
            forall|x: int| 0 <= x < i ==> vars@[x].0@ != name@,
        decreases vars.len() - i,
    {
        if vars[i].0 == owned {
            proof {
                lemma_bindings_first(vars@, name@, i as int);
            }
            return Some(&vars[i].1);
        }
        i += 1;
    }
    proof {
        lemma_bindings_absent(vars@, name@);
    }
    None
}

/// Whether two string slices hold the same characters.
pub fn str_eq(a: &str, b: &str) -> (r: bool)
    ensures
        r == (a@ == b@),
{
    let sa = String::from_str(a);
    let sb = String::from_str(b);
    sa == sb
}

proof fn lemma_find_close_at(t: Seq<char>, j: int)
    requires
        0 <= j <= t.len(),
        forall|x: int| 0 <= x < j ==> t[x] != '}',
        j < t.len() ==> t[j] == '}',
    ensures
        find_close(t) == if j < t.len() { j } else { t.len() as int },
    decreases j,
{
    if j > 0 {
        assert(t[0] != '}');
        lemma_find_close_at(t.skip(1), j - 1);
    }
}

/// How rendering a template can fail; mirrors `SubstErr` at run time.
#[derive(Debug, PartialEq, Eq)]
pub enum RenderError {
    UnresolvedPlaceholder(String),
    UnclosedPlaceholder,
}

/// Substitutes every `{name}` in `template` by the value bound to `name`
/// in `vars`, exactly as `subst` describes.
pub fn render_template(template: &str, vars: &Vec<(String, String)>) -> (r: Result<
    String,
    RenderError,
>)
    ensures
        match r {
            Ok(out) => subst(template@, bindings(vars@)) == Ok::<Seq<char>, SubstErr>(out@),
            Err(RenderError::UnresolvedPlaceholder(n)) => subst(template@, bindings(vars@))
                == Err::<Seq<char>, SubstErr>(SubstErr::Missing(n@)),
            Err(RenderError::UnclosedPlaceholder) => subst(template@, bindings(vars@))
                == Err::<Seq<char>, SubstErr>(SubstErr::Unclosed),
        },
{
    let ghost m = bindings(vars@);
    let ghost t = template@;
    let tlen = template.unicode_len();
    let mut out = String::new();
    let mut i: usize = 0;
    proof {
        assert(t.skip(0) =~= t);
    }
    while i < tlen
        invariant
            0 <= i <= tlen,
            tlen == t.len(),
            t == template@,
            m == bindings(vars@),
            subst(t, m) == (match subst(t.skip(i as int), m) {
                Ok(rest) => Ok::<Seq<char>, SubstErr>(out@ + rest),
                Err(e) => Err::<Seq<char>, SubstErr>(e),
            }),
        decreases tlen - i,
    {
        let c = template.get_char(i);
        let ghost rem = t.skip(i as int);
        if c == '{' {
            let mut j = i + 1;
            while j < tlen && template.get_char(j) != '}'
                invariant
                    i + 1 <= j <= tlen,
                    tlen == t.len(),
                    t == template@,
                    forall|x: int| i + 1 <= x < j ==> t[x] != '}',
                decreases tlen - j,
            {
                j += 1;
            }
            proof {
                assert(rem.skip(1) =~= t.skip(i + 1));
                lemma_find_close_at(t.skip(i + 1), j - i - 1);
            }
            if j == tlen {
                proof {
                    assert(find_close(rem.skip(1)) == rem.len() - 1);
                }
                return Err(RenderError::UnclosedPlaceholder);
            }
            let name = template.substring_char(i + 1, j);
            proof {
                assert(find_close(rem.skip(1)) == j - i - 1);
                assert(rem.subrange(1, 1 + (j - i - 1)) =~= name@);
            }
            match lookup(vars, name) {
                Some(v) => {
                    let ghost old_out = out@;
                    out.append(v.as_str());
                    proof {
                        assert(rem.skip(2 + (j - i - 1)) =~= t.skip(j + 1));
                        if subst(t.skip(j + 1), m) is Ok {
                            let rest = subst(t.skip(j + 1), m)->Ok_0;
                            assert(old_out + (m[name@] + rest) =~= out@ + rest);
                        }
                    }
                },
                None => {
                    return Err(RenderError::UnresolvedPlaceholder(String::from_str(name)));
                },
            }
            i = j + 1;
        } else {
            let piece = template.substring_char(i, i + 1);
            let ghost old_out = out@;
            out.append(piece);
            proof {
                assert(rem[0] == t[i as int]);
                assert(rem.skip(1) =~= t.skip(i + 1));
                assert(piece@ =~= seq![t[i as int]]);
                if subst(t.skip(i + 1), m) is Ok {
                    let rest = subst(t.skip(i + 1), m)->Ok_0;
                    assert(old_out + (seq![t[i as int]] + rest) =~= out@ + rest);
                }
            }
            i += 1;
        }
    }
    proof {
        assert(t.skip(tlen as int) =~= Seq::<char>::empty());
        assert(out@ + Seq::<char>::empty() =~= out@);
    }
    Ok(out)
}

/// No `{` occurs in `s`: rendering keeps `s` verbatim.
pub open spec fn brace_free(s: Seq<char>) -> bool {
    forall|x: int| 0 <= x < s.len() ==> s[x] != '{'
}

/// No `}` occurs in `s`: `s` can stand as a placeholder name.
pub open spec fn name_ok(s: Seq<char>) -> bool {
    forall|x: int| 0 <= x < s.len() ==> s[x] != '}'
}

/// A template without placeholders renders as itself.
pub proof fn lemma_subst_literal(s: Seq<char>, m: Map<Seq<char>, Seq<char>>)
    requires
        brace_free(s),
    ensures
        subst(s, m) == Ok::<Seq<char>, SubstErr>(s),
    decreases s.len(),
{
    if s.len() == 0 {
        assert(Seq::<char>::empty() =~= s);
    } else {
        lemma_subst_literal(s.skip(1), m);
        assert(seq![s[0]] + s.skip(1) =~= s);
    }
}

/// Peels one literal segment and one placeholder off the front of a
/// template: `s{name}` followed by `t` renders as `s`, then the value
/// bound to `name`, then whatever `t` renders as.
pub proof fn lemma_subst_step(
    s: Seq<char>,
    name: Seq<char>,
    t: Seq<char>,
    m: Map<Seq<char>, Seq<char>>,
)
    requires
        brace_free(s),
        name_ok(name),
    ensures
        subst(s + ("{"@ + (name + ("}"@ + t))), m) == (if m.contains_key(name) {
            match subst(t, m) {
                Ok(rest) => Ok::<Seq<char>, SubstErr>(s + (m[name] + rest)),
                Err(e) => Err::<Seq<char>, SubstErr>(e),
            }
        } else {
            Err::<Seq<char>, SubstErr>(SubstErr::Missing(name))
        }),
    decreases s.len(),
{
    reveal_strlit("{");
    reveal_strlit("}");
    let whole = s + ("{"@ + (name + ("}"@ + t)));
    if s.len() > 0 {
        assert(whole[0] == s[0]);
        assert(whole.skip(1) =~= s.skip(1) + ("{"@ + (name + ("}"@ + t))));
        lemma_subst_step(s.skip(1), name, t, m);
        if m.contains_key(name) && subst(t, m) is Ok {
            let rest = subst(t, m)->Ok_0;
            assert(seq![s[0]] + (s.skip(1) + (m[name] + rest)) =~= s + (m[name] + rest));
        }
    } else {
        assert(whole =~= "{"@ + (name + ("}"@ + t)));
        assert(whole[0] == '{');
        assert(whole.skip(1) =~= name + ("}"@ + t));
        lemma_find_close_at(name + ("}"@ + t), name.len() as int);
        assert((name + ("}"@ + t))[name.len() as int] == '}');
        let k = find_close(whole.skip(1)) as int;
        assert(k == name.len());
        assert(k < whole.len() - 1);
        assert(whole.subrange(1, 1 + k) =~= name);
        assert(whole.skip(2 + k) =~= t);
    }
}

/// `h` holds `n` as a contiguous run of characters.
pub open spec fn contains_str(h: Seq<char>, n: Seq<char>) -> bool {
    exists|i: int|
        0 <= i && i + n.len() <= h.len() && #[trigger] h.subrange(i, i + n.len() as int) == n
}

/// What begins a string is contained in it.
pub proof fn lemma_contains_here(x: Seq<char>, suf: Seq<char>)
    ensures
        contains_str(x + suf, x),
{
    let z: int = 0;
    assert((x + suf).subrange(z, z + x.len() as int) =~= x);
}

/// What a suffix contains, the whole contains.
pub proof fn lemma_contains_shift(pre: Seq<char>, h: Seq<char>, n: Seq<char>)
    requires
        contains_str(h, n),
    ensures
        contains_str(pre + h, n),
{
    let i = choose|i: int|
        0 <= i && i + n.len() <= h.len() && #[trigger] h.subrange(i, i + n.len() as int) == n;
    let w = pre.len() + i;
    assert((pre + h).subrange(w, w + n.len() as int) =~= h.subrange(i, i + n.len() as int));
}

} // verus!
