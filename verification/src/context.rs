use vstd::prelude::*;
use vstd::string::StrSliceExecFns;
use vstd::string::StringExecFns;
use crate::ctxmap::{ctx_entries, ctx_get, ctx_insert, ctx_new, Context};
use crate::error::BError;
use crate::strutil::{find_from, find_char, has_kv_sep, kv_key, kv_val, lemma_find_from, parse_key_value};

verus! {

/// The result of resolving every `$#[NAME]` token of `t` from `i` on
/// against the context `ctx`: `None` when a token is unterminated or names
/// a variable absent from the context, otherwise the text with each token
/// replaced by its value. Replacement is not recursive: a substituted value
/// is not itself scanned for tokens.
pub open spec fn expand_from(t: Seq<char>, ctx: Map<Seq<char>, Seq<char>>, i: int) -> Option<
    Seq<char>,
>
    decreases t.len() - i,
{
    if i < 0 || i >= t.len() {
        Some(Seq::empty())
    } else if i + 3 <= t.len() && t[i] == '$' && t[i + 1] == '#' && t[i + 2] == '[' {
        let j = find_from(t, i + 3, ']');
        if j < i + 3 || j >= t.len() {
            None
        } else if !ctx.contains_key(t.subrange(i + 3, j)) {
            None
        } else {
            match expand_from(t, ctx, j + 1) {
                Some(rest) => Some(ctx[t.subrange(i + 3, j)] + rest),
                None => None,
            }
        }
    } else {
        match expand_from(t, ctx, i + 1) {
            Some(rest) => Some(seq![t[i]] + rest),
            None => None,
        }
    }
}

/// `rest` with `prefix` prepended when it holds text, `None` otherwise.
pub open spec fn opt_prepend(prefix: Seq<char>, rest: Option<Seq<char>>) -> Option<Seq<char>> {
    match rest {
        Some(s) => Some(prefix + s),
        None => None,
    }
}

/// Resolves every `$#[NAME]` token of `template` against `ctx`. A token
/// whose name the context does not define, or one that is never closed, is
/// a hard error: the literal token text is never emitted.
pub fn expand(template: &str, ctx: &Context) -> (r: Result<String, BError>)
    ensures
        match r {
            Ok(s) => expand_from(template@, ctx_entries(*ctx), 0) == Some(s@),
            Err(e) => expand_from(template@, ctx_entries(*ctx), 0) is None && e
                is ContextExpansionError,
        },
{
    let ghost m = ctx_entries(*ctx);
    let n = template.unicode_len();
    let mut out = String::new();
    let mut i: usize = 0;
    while i < n
        invariant
            i <= n,
            n == template@.len(),
            m == ctx_entries(*ctx),
            expand_from(template@, m, 0) == opt_prepend(out@, expand_from(template@, m, i as int)),
        decreases n - i,
    {
        let ghost old_out = out@;
        let ghost old_i = i as int;
        let c = template.get_char(i);
        if c == '$' && i + 1 < n && template.get_char(i + 1) == '#' && i + 2 < n
            && template.get_char(i + 2) == '[' {
            let j = find_char(template, i + 3, ']');
            proof {
                lemma_find_from(template@, i + 3, ']');
            }
            if j >= n {
                return Err(BError::ContextExpansionError(template.to_owned()));
            }
            let name = template.substring_char(i + 3, j);
            match ctx_get(ctx, name) {
                Some(value) => {
                    out.append(value.as_str());
                    i = j + 1;
                    proof {
                        let rest = expand_from(template@, m, i as int);
                        assert(expand_from(template@, m, old_i) == opt_prepend(value@, rest));
                        if rest is Some {
                            assert(old_out + (value@ + rest->0) =~= out@ + rest->0);
                        }
                    }
                },
                None => {
                    return Err(BError::ContextExpansionError(name.to_owned()));
                },
            }
        } else {
            let one = template.substring_char(i, i + 1);
            proof {
                assert(one@ =~= seq![c]);
            }
            out.append(one);
            i = i + 1;
            proof {
                let rest = expand_from(template@, m, i as int);
                assert(expand_from(template@, m, old_i) == opt_prepend(seq![c], rest));
                if rest is Some {
                    assert(old_out + (seq![c] + rest->0) =~= out@ + rest->0);
                }
            }
        }
    }
    proof {
        assert(expand_from(template@, m, i as int) == Some(Seq::<char>::empty()));
        assert(out@ + Seq::<char>::empty() =~= out@);
    }
    Ok(out)
}

/// The context described by a sequence of `KEY=VALUE` arguments; on a
/// repeated key the later argument wins.
pub open spec fn context_of(args: Seq<Seq<char>>) -> Map<Seq<char>, Seq<char>>
    decreases args.len(),
{
    if args.len() == 0 {
        Map::empty()
    } else {
        context_of(args.drop_last()).insert(kv_key(args.last()), kv_val(args.last()))
    }
}

/// Builds the substitution context from CLI `KEY=VALUE` arguments.
pub fn context_from_args(args: &Vec<String>) -> (r: Context)
    requires
        forall|k: int| 0 <= k < args@.len() ==> has_kv_sep(#[trigger] args@[k]@),
    ensures
        ctx_entries(r) == context_of(args.deep_view()),
{
    let mut out = ctx_new();
    let mut i: usize = 0;
    while i < args.len()
        invariant
            i <= args@.len(),
            forall|k: int| 0 <= k < args@.len() ==> has_kv_sep(#[trigger] args@[k]@),
            ctx_entries(out) == context_of(args.deep_view().subrange(0, i as int)),
        decreases args@.len() - i,
    {
        let (key, value) = parse_key_value(args[i].as_str());
        ctx_insert(&mut out, key, value);
        i += 1;
        proof {
            let dv = args.deep_view();
            assert(dv.subrange(0, i as int).drop_last() =~= dv.subrange(0, i - 1));
            assert(dv.subrange(0, i as int).last() == dv[i - 1]);
        }
    }
    proof {
        assert(args.deep_view().subrange(0, args.deep_view().len() as int) =~= args.deep_view());
    }
    out
}

} // verus!
