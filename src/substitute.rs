use vstd::prelude::*;

verus! {

/// The token that stands for the project name.
pub const REPLACEABLE_NAME: &'static str = "{{__NAME__}}";

/// The token that stands for the output path.
pub const REPLACEABLE_OUTPUT: &'static str = "{{__OUT__}}";

/// The characters of the project-name token.
pub open spec fn name_token() -> Seq<char> {
    seq!['{', '{', '_', '_', 'N', 'A', 'M', 'E', '_', '_', '}', '}']
}

/// The characters of the output-path token.
pub open spec fn output_token() -> Seq<char> {
    seq!['{', '{', '_', '_', 'O', 'U', 'T', '_', '_', '}', '}']
}

/// `t` occurs in `s` at position `i`.
pub open spec fn occurs_at(s: Seq<char>, i: int, t: Seq<char>) -> bool {
    0 <= i && i + t.len() <= s.len() && s.subrange(i, i + t.len()) == t
}

/// One left-to-right pass over `s` from position `i`, checking token `t1` before token `t2`
/// at each position: an occurrence is replaced by its value, which is never scanned again.
pub open spec fn scan(
    s: Seq<char>,
    i: int,
    t1: Seq<char>,
    v1: Seq<char>,
    t2: Seq<char>,
    v2: Seq<char>,
) -> Seq<char>
    decreases s.len() - i,
{
    if i < 0 || i >= s.len() {
        Seq::empty()
    } else if t1.len() > 0 && occurs_at(s, i, t1) {
        v1 + scan(s, i + t1.len(), t1, v1, t2, v2)
    } else if t2.len() > 0 && occurs_at(s, i, t2) {
        v2 + scan(s, i + t2.len(), t1, v1, t2, v2)
    } else {
        seq![s[i]] + scan(s, i + 1, t1, v1, t2, v2)
    }
}

/// `s` with every project-name token replaced by `name` and every output-path token by `out`.
pub open spec fn substitute(s: Seq<char>, name: Seq<char>, out: Seq<char>) -> Seq<char> {
    scan(s, 0, name_token(), name, output_token(), out)
}

/// The two tokens never occur at the same position.
proof fn lemma_tokens_exclusive(s: Seq<char>, i: int)
    ensures
        !(occurs_at(s, i, name_token()) && occurs_at(s, i, output_token())),
{
    if occurs_at(s, i, name_token()) && occurs_at(s, i, output_token()) {
        assert(s.subrange(i, i + 12)[4] == 'N');
        assert(s.subrange(i, i + 11)[4] == 'O');
    }
}

proof fn lemma_scan_order(s: Seq<char>, i: int, name: Seq<char>, out: Seq<char>)
    ensures
        scan(s, i, name_token(), name, output_token(), out) == scan(
            s,
            i,
            output_token(),
            out,
            name_token(),
            name,
        ),
    decreases s.len() - i,
{
    lemma_tokens_exclusive(s, i);
    if 0 <= i < s.len() {
        if occurs_at(s, i, name_token()) {
            lemma_scan_order(s, i + 12, name, out);
        } else if occurs_at(s, i, output_token()) {
            lemma_scan_order(s, i + 11, name, out);
        } else {
            lemma_scan_order(s, i + 1, name, out);
        }
    }
}

/// Substitution does not depend on which token is looked for first: checking the output-path
/// token before the project-name token gives the same text.
pub proof fn lemma_substitute_order_independent(s: Seq<char>, name: Seq<char>, out: Seq<char>)
    ensures
        substitute(s, name, out) == scan(s, 0, output_token(), out, name_token(), name),
{
    lemma_scan_order(s, 0, name, out);
}

/// Relies on `str::chars`: the characters of `s`, in order.
#[verifier::external_body]
fn chars_of(s: &str) -> (r: Vec<char>)
    ensures
        r@ == s@,
{
    s.chars().collect()
}

/// Relies on `String::from_iter`: the string made of the characters of `v`, in order.
#[verifier::external_body]
fn string_of(v: &Vec<char>) -> (r: String)
    ensures
        r@ == v@,
{
    v.iter().collect()
}

/// `t` occurs in `s` at position `i`.
fn occurs_at_exec(s: &Vec<char>, i: usize, t: &Vec<char>) -> (r: bool)
    requires
        i <= s@.len(),
    ensures
        r == occurs_at(s@, i as int, t@),
{
    if t.len() > s.len() - i {
        return false;
    }
    let mut k: usize = 0;
    while k < t.len()
        invariant
            i + t@.len() <= s@.len(),
            s@.len() <= usize::MAX,
            k <= t@.len(),
            forall|j: int| 0 <= j < k ==> s@[i + j] == t@[j],
        decreases t.len() - k,
    {
        if s[i + k] != t[k] {
            assert(s@.subrange(i as int, i + t@.len())[k as int] != t@[k as int]);
            return false;
        }
        k = k + 1;
    }
    assert(s@.subrange(i as int, i + t@.len()) =~= t@);
    true
}

/// Replaces the project-name and output-path tokens in one pass.
pub fn substitute_tokens(s: &str, proj_name: &str, proj_out: &str) -> (r: String)
    ensures
        r@ == substitute(s@, proj_name@, proj_out@),
{
    let text = chars_of(s);
    let name_tok = chars_of(REPLACEABLE_NAME);
    let out_tok = chars_of(REPLACEABLE_OUTPUT);
    let name = chars_of(proj_name);
    let out = chars_of(proj_out);
    proof {
        reveal_strlit("{{__NAME__}}");
        reveal_strlit("{{__OUT__}}");
        assert(name_tok@ =~= name_token());
        assert(out_tok@ =~= output_token());
    }
    let ghost whole = substitute(s@, proj_name@, proj_out@);
    let mut res: Vec<char> = Vec::new();
    let mut i: usize = 0;
    while i < text.len()
        invariant
            text@ == s@,
            name_tok@ == name_token(),
            out_tok@ == output_token(),
            name@ == proj_name@,
            out@ == proj_out@,
            whole == substitute(s@, proj_name@, proj_out@),
            i <= text@.len(),
            res@ + scan(s@, i as int, name_token(), name@, output_token(), out@) == whole,
        decreases text.len() - i,
    {
        let ghost prev = res@;
        if occurs_at_exec(&text, i, &name_tok) {
            let mut k: usize = 0;
            while k < name.len()
                invariant
                    k <= name@.len(),
                    res@ == prev + name@.subrange(0, k as int),
                decreases name.len() - k,
            {
                res.push(name[k]);
                k = k + 1;
            }
            assert(name@.subrange(0, name@.len() as int) =~= name@);
            assert(res@ + scan(s@, i + 12, name_token(), name@, output_token(), out@) =~= prev + (
            name@ + scan(s@, i + 12, name_token(), name@, output_token(), out@)));
            i = i + 12;
        } else if occurs_at_exec(&text, i, &out_tok) {
            let mut k: usize = 0;
            while k < out.len()
                invariant
                    k <= out@.len(),
                    res@ == prev + out@.subrange(0, k as int),
                decreases out.len() - k,
            {
                res.push(out[k]);
                k = k + 1;
            }
            assert(out@.subrange(0, out@.len() as int) =~= out@);
            assert(res@ + scan(s@, i + 11, name_token(), name@, output_token(), out@) =~= prev + (
            out@ + scan(s@, i + 11, name_token(), name@, output_token(), out@)));
            i = i + 11;
        } else {
            res.push(text[i]);
            assert(res@ + scan(s@, i + 1, name_token(), name@, output_token(), out@) =~= prev + (
            seq![s@[i as int]] + scan(s@, i + 1, name_token(), name@, output_token(), out@)));
            i = i + 1;
        }
    }
    assert(res@ =~= whole);
    string_of(&res)
}

/// Replaces the placeholder tokens in a file's contents.
pub fn replace_placeholders(s: String, proj_name: &str, proj_out: &str) -> (r: String)
    ensures
        r@ == substitute(s@, proj_name@, proj_out@),
{
    substitute_tokens(s.as_str(), proj_name, proj_out)
}

} // verus!
