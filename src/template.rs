//! Message templates: `{name}` placeholders replaced by the text of named arguments.
use crate::locale::{args_view, ArgValue, LocaleValue};
use crate::text::{decimal, push_char, push_decimal, push_signed_decimal, signed_decimal};
use vstd::prelude::*;
use vstd::string::{StrSliceExecFns, StringExecFns};

verus! {

/// Text that an argument value renders to.
pub open spec fn arg_text(v: ArgValue) -> Seq<char> {
    match v {
        ArgValue::Text(s) => s,
        ArgValue::Unsigned(n) => decimal(n),
        ArgValue::Signed(i) => signed_decimal(i),
    }
}

/// Value of the first argument named `name`, looking from position `k` on.
pub open spec fn find_arg_from(args: Seq<(Seq<char>, ArgValue)>, name: Seq<char>, k: int) -> Option<
    ArgValue,
>
    decreases args.len() - k,
{
    if k < 0 || k >= args.len() {
        None
    } else if args[k].0 == name {
        Some(args[k].1)
    } else {
        find_arg_from(args, name, k + 1)
    }
}

/// Position of the first `}` of `t` at or after `j`.
pub open spec fn next_close(t: Seq<char>, j: int) -> Option<int>
    decreases t.len() - j,
{
    if j < 0 || j >= t.len() {
        None
    } else if t[j] == '}' {
        Some(j)
    } else {
        next_close(t, j + 1)
    }
}

/// Renders `t` from position `i` on: `{name}` becomes the text of argument `name`;
/// braces that name no argument stay as they are.
pub open spec fn render_from(t: Seq<char>, args: Seq<(Seq<char>, ArgValue)>, i: int) -> Seq<char>
    decreases t.len() - i via render_from_decreases
{
    if i < 0 || i >= t.len() {
        Seq::empty()
    } else if t[i] == '{' && next_close(t, i + 1) is Some && find_arg_from(
        args,
        t.subrange(i + 1, next_close(t, i + 1)->0),
        0,
    ) is Some {
        let j = next_close(t, i + 1)->0;
        arg_text(find_arg_from(args, t.subrange(i + 1, j), 0)->0) + render_from(t, args, j + 1)
    } else {
        seq![t[i]] + render_from(t, args, i + 1)
    }
}

#[via_fn]
proof fn render_from_decreases(t: Seq<char>, args: Seq<(Seq<char>, ArgValue)>, i: int) {
    if 0 <= i < t.len() {
        lemma_next_close_bounds(t, i + 1);
    }
}

pub open spec fn render(t: Seq<char>, args: Seq<(Seq<char>, ArgValue)>) -> Seq<char> {
    render_from(t, args, 0)
}

proof fn lemma_next_close_bounds(t: Seq<char>, j: int)
    requires
        0 <= j,
    ensures
        next_close(t, j) matches Some(c) ==> j <= c < t.len() && t[c] == '}',
    decreases t.len() - j,
{
    if j < t.len() && t[j] != '}' {
        lemma_next_close_bounds(t, j + 1);
    }
}

fn find_close(t: &str, from: usize) -> (r: Option<usize>)
    requires
        from <= t@.len(),
    ensures
        r matches Some(c) ==> next_close(t@, from as int) == Some(c as int),
        r is None ==> next_close(t@, from as int) is None,
{
    let n = t.unicode_len();
    let mut j = from;
    while j < n
        invariant
            n == t@.len(),
            from <= j <= n,
            next_close(t@, from as int) == next_close(t@, j as int),
        decreases n - j,
    {
        if t.get_char(j) == '}' {
            return Some(j);
        }
        j += 1;
    }
    None
}

fn find_arg(args: &Vec<(String, LocaleValue)>, name: &String) -> (r: Option<usize>)
    ensures
        r matches Some(k) ==> k < args@.len() && find_arg_from(args_view(args@), name@, 0) == Some(
            args@[k as int].1@,
        ),
        r is None ==> find_arg_from(args_view(args@), name@, 0) is None,
{
    let ghost a = args_view(args@);
    let mut k: usize = 0;
    while k < args.len()
        invariant
            a == args_view(args@),
            k <= args@.len(),
            find_arg_from(a, name@, 0) == find_arg_from(a, name@, k as int),
        decreases args@.len() - k,
    {
        if args[k].0 == *name {
            return Some(k);
        }
        k += 1;
    }
    None
}

fn push_arg(out: &mut String, v: &LocaleValue)
    ensures
        final(out)@ == old(out)@ + arg_text(v@),
{
    match v {
        LocaleValue::String(s) => out.append(s.as_str()),
        LocaleValue::Uint(n) => push_decimal(out, *n as u128),
        LocaleValue::Int(i) => push_signed_decimal(out, *i as i128),
    }
}

/// Renders a template with the given named arguments.
pub fn render_template(template: &str, args: &Vec<(String, LocaleValue)>) -> (r: String)
    ensures
        r@ == render(template@, args_view(args@)),
{
    let ghost t = template@;
    let ghost a = args_view(args@);
    let n = template.unicode_len();
    let mut out = String::new();
    let mut i: usize = 0;
    while i < n
        invariant
            n == t.len(),
            t == template@,
            a == args_view(args@),
            i <= n,
            out@ + render_from(t, a, i as int) == render(t, a),
        decreases n - i,
    {
        let c = template.get_char(i);
        if c == '{' {
            if let Some(j) = find_close(template, i + 1) {
                proof {
                    lemma_next_close_bounds(t, i + 1);
                }
                let name = template.substring_char(i + 1, j).to_string();
                if let Some(k) = find_arg(args, &name) {
                    let ghost before = out@;
                    push_arg(&mut out, &args[k].1);
                    assert(out@ + render_from(t, a, j + 1) == render(t, a)) by {
                        assert(render_from(t, a, i as int) == arg_text(args@[k as int].1@)
                            + render_from(t, a, j + 1));
                        assert(before + arg_text(args@[k as int].1@) + render_from(t, a, j + 1)
                            =~= before + (arg_text(args@[k as int].1@) + render_from(
                            t,
                            a,
                            j + 1,
                        )));
                    }
                    i = j + 1;
                    continue ;
                }
            }
        }
        let ghost before = out@;
        push_char(&mut out, c);
        assert(out@ + render_from(t, a, i + 1) == render(t, a)) by {
            assert(before.push(c) + render_from(t, a, i + 1) =~= before + (seq![c] + render_from(
                t,
                a,
                i + 1,
            )));
        }
        i += 1;
    }
    out
}

} // verus!
