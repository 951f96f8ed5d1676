//! What holds of every rendering.

use crate::templates::{substituted, tokens, TemplateContext};
use crate::text::{lemma_short_text_unchanged, occurs_at, occurs_in, replaced};
use vstd::prelude::*;

verus! {

/// A value without a `%`.
pub open spec fn unmarked(value: Seq<char>) -> bool {
    forall|i: int| 0 <= i < value.len() ==> value[i] != '%'
}

/// A value that can neither hold nor complete a placeholder: it has no `%`,
/// and it does not occur inside any placeholder (so it is not empty).
pub open spec fn inert(value: Seq<char>) -> bool {
    &&& forall|i: int| 0 <= i < value.len() ==> value[i] != '%'
    &&& forall|k: int| 0 <= k < tokens().len() ==> !occurs_in(#[trigger] tokens()[k], value)
}

/// Whether the value at position `k` can neither hold a placeholder nor
/// complete one that has been replaced when the value comes into the text:
/// it has no `%`, and it occurs inside none of the placeholders at the
/// positions up to `k` (so it is not empty).
pub open spec fn settled(values: Seq<Seq<char>>, k: int) -> bool {
    &&& unmarked(values[k])
    &&& forall|t: int| 0 <= t <= k ==> !occurs_in(#[trigger] tokens()[t], values[k])
}

/// An inert value is settled wherever it stands.
pub proof fn lemma_inert_is_settled(values: Seq<Seq<char>>, k: int)
    requires
        0 <= k < 10,
        inert(values[k]),
    ensures
        settled(values, k),
{
    lemma_token_shape(k);
}

/// Whether a character is one that placeholders are written with.
pub open spec fn token_char(c: char) -> bool {
    c == '%' || c == '_' || ('A' <= c && c <= 'Z')
}

/// Whether the first `upto` characters of `s` are ones that placeholders are
/// written with.
spec fn written_with_token_chars(s: Seq<char>, upto: int) -> bool
    decreases upto,
{
    upto <= 0 || (token_char(s[upto - 1]) && written_with_token_chars(s, upto - 1))
}

proof fn lemma_written_with(s: Seq<char>, upto: int, i: int)
    requires
        written_with_token_chars(s, upto),
        0 <= i < upto,
    ensures
        token_char(s[i]),
    decreases upto,
{
    if i < upto - 1 {
        lemma_written_with(s, upto - 1, i);
    }
}

/// Placeholders are written with `%`, `_` and capital letters alone.
pub proof fn lemma_token_chars(k: int, i: int)
    requires
        0 <= k < 10,
        0 <= i < tokens()[k].len(),
    ensures
        token_char(tokens()[k][i]),
{
    let t = tokens()[k];
    assert(written_with_token_chars(t, t.len() as int)) by {
        reveal_with_fuel(written_with_token_chars, 30);
        if k == 0 {
            reveal_strlit("%%PROJECT_NAME%%");
        } else if k == 1 {
            reveal_strlit("%%PROJECT_NAME_UNDERSCORED%%");
        } else if k == 2 {
            reveal_strlit("%%PROJECT_NAME_CAMELCASE%%");
        } else if k == 3 {
            reveal_strlit("%%PROJECT_DESCRIPTION%%");
        } else if k == 4 {
            reveal_strlit("%%AUTHORS%%");
        } else if k == 5 {
            reveal_strlit("%%CARGO_PACKAGE_VERSION%%");
        } else if k == 6 {
            reveal_strlit("%%VENDOR%%");
        } else if k == 7 {
            reveal_strlit("%%URL%%");
        } else if k == 8 {
            reveal_strlit("%%EMAIL%%");
        } else {
            reveal_strlit("%%NIH_PLUG_GIT%%");
        }
    }
    lemma_written_with(t, t.len() as int, i);
}

/// No two placeholders are the same text.
pub proof fn lemma_tokens_differ(a: int, b: int)
    requires
        0 <= a < 10,
        0 <= b < 10,
        a != b,
    ensures
        tokens()[a] != tokens()[b],
{
    reveal_strlit("%%PROJECT_NAME%%");
    reveal_strlit("%%PROJECT_NAME_UNDERSCORED%%");
    reveal_strlit("%%PROJECT_NAME_CAMELCASE%%");
    reveal_strlit("%%PROJECT_DESCRIPTION%%");
    reveal_strlit("%%AUTHORS%%");
    reveal_strlit("%%CARGO_PACKAGE_VERSION%%");
    reveal_strlit("%%VENDOR%%");
    reveal_strlit("%%URL%%");
    reveal_strlit("%%EMAIL%%");
    reveal_strlit("%%NIH_PLUG_GIT%%");
    assert(tokens()[0].len() == 16 && tokens()[0][2] == 'P');
    assert(tokens()[1].len() == 28);
    assert(tokens()[2].len() == 26);
    assert(tokens()[3].len() == 23);
    assert(tokens()[4].len() == 11);
    assert(tokens()[5].len() == 25);
    assert(tokens()[6].len() == 10);
    assert(tokens()[7].len() == 7);
    assert(tokens()[8].len() == 9);
    assert(tokens()[9].len() == 16 && tokens()[9][2] == 'N');
    if tokens()[a] == tokens()[b] {
        assert(tokens()[a].len() == tokens()[b].len());
        assert(tokens()[a][2] == tokens()[b][2]);
    }
}

/// Every placeholder begins and ends with `%`.
pub proof fn lemma_token_shape(k: int)
    requires
        0 <= k < 10,
    ensures
        tokens().len() == 10,
        tokens()[k].len() >= 2,
        tokens()[k][0] == '%',
        tokens()[k].last() == '%',
{
    reveal_strlit("%%PROJECT_NAME%%");
    reveal_strlit("%%PROJECT_NAME_UNDERSCORED%%");
    reveal_strlit("%%PROJECT_NAME_CAMELCASE%%");
    reveal_strlit("%%PROJECT_DESCRIPTION%%");
    reveal_strlit("%%AUTHORS%%");
    reveal_strlit("%%CARGO_PACKAGE_VERSION%%");
    reveal_strlit("%%VENDOR%%");
    reveal_strlit("%%URL%%");
    reveal_strlit("%%EMAIL%%");
    reveal_strlit("%%NIH_PLUG_GIT%%");
}

/// Replacing with an inert value completes no placeholder: where the end of
/// `token` from position `from` on begins the text after the replacement, it
/// began the text before it.
proof fn lemma_start_was_there(
    text: Seq<char>,
    key: Seq<char>,
    value: Seq<char>,
    token: Seq<char>,
    from: int,
)
    requires
        forall|i: int| 0 <= i < value.len() ==> value[i] != '%',
        !occurs_in(token, value),
        1 <= from <= token.len(),
        token.last() == '%',
        occurs_at(replaced(text, key, value), token.skip(from), 0),
    ensures
        occurs_at(text, token.skip(from), 0),
    decreases text.len(),
{
    let tail = token.skip(from);
    let after = replaced(text, key, value);
    if tail.len() == 0 {
        assert(text.subrange(0, 0) =~= tail);
    } else if key.len() == 0 || text.len() < key.len() {
    } else if occurs_at(text, key, 0) {
        let rest = replaced(text.skip(key.len() as int), key, value);
        assert(after == value + rest);
        assert(after.subrange(0, tail.len() as int) == tail);
        if tail.len() <= value.len() {
            assert(tail.last() == token.last());
            assert(after.subrange(0, tail.len() as int)[tail.len() - 1] == value[tail.len() - 1]);
            assert(false);
        } else {
            assert(token.subrange(from, from + value.len()) =~= value) by {
                assert forall|i: int| 0 <= i < value.len() implies token[from + i] == value[i] by {
                    assert(after.subrange(0, tail.len() as int)[i] == value[i]);
                    assert(tail[i] == token[from + i]);
                }
            }
            assert(occurs_at(token, value, from));
            assert(false);
        }
    } else {
        let rest = replaced(text.skip(1), key, value);
        assert(after == seq![text[0]] + rest);
        assert(after.subrange(0, tail.len() as int) == tail);
        assert(tail[0] == text[0]) by {
            assert(after.subrange(0, tail.len() as int)[0] == text[0]);
        }
        assert(token.skip(from + 1) =~= tail.skip(1));
        assert(rest.subrange(0, tail.len() - 1) =~= tail.skip(1)) by {
            assert forall|i: int| 0 <= i < tail.len() - 1 implies rest[i] == tail[i + 1] by {
                assert(after.subrange(0, tail.len() as int)[i + 1] == rest[i]);
            }
        }
        assert(occurs_at(rest, token.skip(from + 1), 0));
        lemma_start_was_there(text.skip(1), key, value, token, from + 1);
        assert(text.subrange(0, tail.len() as int) =~= tail) by {
            assert forall|i: int| 0 <= i < tail.len() implies text[i] == tail[i] by {
                if i > 0 {
                    assert(text.skip(1).subrange(0, tail.len() - 1)[i - 1] == text[i]);
                    assert(tail.skip(1)[i - 1] == tail[i]);
                }
            }
        }
    }
}

/// Replacing `key` by an inert value leaves no occurrence of `key`, and
/// brings no occurrence of another placeholder that was not there before.
pub proof fn lemma_replace_leaves_absent(
    text: Seq<char>,
    key: Seq<char>,
    value: Seq<char>,
    token: Seq<char>,
)
    requires
        forall|i: int| 0 <= i < value.len() ==> value[i] != '%',
        !occurs_in(token, value),
        token.len() > 0,
        token[0] == '%',
        token.last() == '%',
        token == key || !occurs_in(text, token),
    ensures
        !occurs_in(replaced(text, key, value), token),
    decreases text.len(),
{
    let after = replaced(text, key, value);
    assert forall|at: int| !occurs_at(after, token, at) by {
        if occurs_at(after, token, at) {
            if key.len() == 0 || text.len() < key.len() {
                assert(occurs_in(text, token));
            } else if occurs_at(text, key, 0) {
                let cut = text.skip(key.len() as int);
                let rest = replaced(cut, key, value);
                assert(token == key || !occurs_in(cut, token)) by {
                    if token != key && occurs_in(cut, token) {
                        let i = choose|i: int| occurs_at(cut, token, i);
                        assert(text.subrange(i + key.len(), i + key.len() + token.len())
                            =~= cut.subrange(i, i + token.len()));
                        assert(occurs_at(text, token, i + key.len()));
                    }
                }
                lemma_replace_leaves_absent(cut, key, value, token);
                if at >= value.len() {
                    assert(rest.subrange(at - value.len(), at - value.len() + token.len())
                        =~= after.subrange(at, at + token.len()));
                    assert(occurs_at(rest, token, at - value.len()));
                } else {
                    assert(after.subrange(at, at + token.len())[0] == value[at]);
                }
                assert(false);
            } else {
                let cut = text.skip(1);
                let rest = replaced(cut, key, value);
                assert(token == key || !occurs_in(cut, token)) by {
                    if token != key && occurs_in(cut, token) {
                        let i = choose|i: int| occurs_at(cut, token, i);
                        assert(text.subrange(i + 1, i + 1 + token.len()) =~= cut.subrange(
                            i,
                            i + token.len(),
                        ));
                        assert(occurs_at(text, token, i + 1));
                    }
                }
                lemma_replace_leaves_absent(cut, key, value, token);
                if at >= 1 {
                    assert(rest.subrange(at - 1, at - 1 + token.len()) =~= after.subrange(
                        at,
                        at + token.len(),
                    ));
                    assert(occurs_at(rest, token, at - 1));
                } else {
                    assert(after.subrange(0, token.len() as int)[0] == text[0]);
                    assert(rest.subrange(0, token.len() - 1) =~= token.skip(1)) by {
                        assert forall|i: int| 0 <= i < token.len() - 1 implies rest[i] == token[i
                            + 1] by {
                            assert(after.subrange(0, token.len() as int)[i + 1] == rest[i]);
                        }
                    }
                    assert(occurs_at(rest, token.skip(1), 0));
                    lemma_start_was_there(cut, key, value, token, 1);
                    assert(text.subrange(0, token.len() as int) =~= token) by {
                        assert forall|i: int| 0 <= i < token.len() implies text[i] == token[i] by {
                            if i > 0 {
                                assert(cut.subrange(0, token.len() - 1)[i - 1] == text[i]);
                                assert(token.skip(1)[i - 1] == token[i]);
                            }
                        }
                    }
                    assert(occurs_at(text, token, 0));
                }
                assert(false);
            }
        }
    }
}

/// After the first `done` placeholders have been replaced by settled
/// values, none of them occurs in the text.
proof fn lemma_done_are_absent(template: Seq<char>, values: Seq<Seq<char>>, done: int, k: int)
    requires
        values.len() == 10,
        forall|i: int| 0 <= i < 10 ==> settled(values, i),
        0 <= k < done <= 10,
    ensures
        !occurs_in(substituted(template, tokens().take(done), values.take(done)), tokens()[k]),
    decreases done,
{
    lemma_token_shape(k);
    lemma_token_shape(done - 1);
    let keys = tokens();
    let before = substituted(template, keys.take(done - 1), values.take(done - 1));
    assert(keys.take(done).drop_last() =~= keys.take(done - 1));
    assert(values.take(done).drop_last() =~= values.take(done - 1));
    assert(keys.take(done).last() == keys[done - 1]);
    assert(values.take(done).last() == values[done - 1]);
    assert(settled(values, done - 1));
    if k < done - 1 {
        lemma_done_are_absent(template, values, done - 1, k);
    }
    lemma_replace_leaves_absent(before, keys[done - 1], values[done - 1], keys[k]);
}

/// Rendering leaves no placeholder behind: where every value is settled at
/// its position, the rendered text holds no occurrence of any of the
/// placeholders.
pub proof fn lemma_no_placeholder_left(context: TemplateContext, template: Seq<char>, k: int)
    requires
        forall|i: int| 0 <= i < 10 ==> settled(context.values(), i),
        0 <= k < 10,
    ensures
        !occurs_in(context.rendered(template), tokens()[k]),
{
    lemma_token_shape(k);
    lemma_done_are_absent(template, context.values(), 10, k);
    assert(tokens().take(10) =~= tokens());
    assert(context.values().take(10) =~= context.values());
}

/// Whether no two occurrences of placeholders in `text` overlap.
pub open spec fn tidy(text: Seq<char>) -> bool {
    forall|a: int, b: int, i: int, j: int|
        0 <= a < 10 && 0 <= b < 10 && #[trigger] occurs_at(text, tokens()[a], i)
            && #[trigger] occurs_at(text, tokens()[b], j) && i <= j && !(i == j && a == b) ==> i
            + tokens()[a].len() <= j
}

/// An occurrence in what is left after the first `n` characters is an
/// occurrence in the whole text, `n` places further on.
proof fn lemma_occurs_after_skip(text: Seq<char>, pattern: Seq<char>, n: int, at: int)
    requires
        0 <= n <= text.len(),
        0 <= at,
    ensures
        occurs_at(text.skip(n), pattern, at) == occurs_at(text, pattern, at + n),
{
    if at + pattern.len() <= text.len() - n {
        assert(text.skip(n).subrange(at, at + pattern.len()) =~= text.subrange(
            at + n,
            at + n + pattern.len(),
        ));
    }
}

/// What is left of a tidy text after its first characters is tidy.
proof fn lemma_tidy_after_skip(text: Seq<char>, n: int)
    requires
        tidy(text),
        0 <= n <= text.len(),
    ensures
        tidy(text.skip(n)),
{
    let rest = text.skip(n);
    assert forall|a: int, b: int, i: int, j: int|
        0 <= a < 10 && 0 <= b < 10 && #[trigger] occurs_at(rest, tokens()[a], i)
            && #[trigger] occurs_at(rest, tokens()[b], j) && i <= j && !(i == j && a
            == b) implies i + tokens()[a].len() <= j by {
        lemma_occurs_after_skip(text, tokens()[a], n, i);
        lemma_occurs_after_skip(text, tokens()[b], n, j);
        assert(occurs_at(text, tokens()[a], i + n));
        assert(occurs_at(text, tokens()[b], j + n));
    }
}

/// The position in `tokens` of a placeholder that stands at the start of
/// `text`, if one does.
pub open spec fn token_here(text: Seq<char>) -> int {
    choose|k: int| 0 <= k < 10 && occurs_at(text, #[trigger] tokens()[k], 0)
}

/// `text` with the placeholders whose positions in `tokens` are in `active`
/// replaced in one pass from the left, each occurrence by the value of its
/// placeholder; every other character is kept. What a value brings into the
/// text is not looked at again.
pub open spec fn swapped(text: Seq<char>, active: Set<int>, values: Seq<Seq<char>>) -> Seq<char>
    decreases text.len(),
{
    if text.len() == 0 {
        text
    } else {
        let k = token_here(text);
        if 0 <= k < 10 && occurs_at(text, tokens()[k], 0) && active.contains(k)
            && tokens()[k].len() > 0 {
            values[k] + swapped(text.skip(tokens()[k].len() as int), active, values)
        } else {
            seq![text[0]] + swapped(text.skip(1), active, values)
        }
    }
}

/// In a tidy text the placeholder at the start is the only one there.
proof fn lemma_only_one_here(text: Seq<char>, k: int)
    requires
        tidy(text),
        0 <= k < 10,
        occurs_at(text, tokens()[k], 0),
    ensures
        token_here(text) == k,
{
    let m = token_here(text);
    assert(0 <= m < 10 && occurs_at(text, tokens()[m], 0));
    lemma_token_shape(m);
    lemma_token_shape(k);
}

/// Where no active placeholder starts within the first `n` characters, the
/// pass copies them.
proof fn lemma_swapped_copies(text: Seq<char>, active: Set<int>, values: Seq<Seq<char>>, n: int)
    requires
        0 <= n <= text.len(),
        forall|i: int, k: int|
            0 <= i < n && 0 <= k < 10 && active.contains(k) ==> !#[trigger] occurs_at(
                text,
                tokens()[k],
                i,
            ),
    ensures
        swapped(text, active, values) == text.take(n) + swapped(text.skip(n), active, values),
    decreases n,
{
    if n == 0 {
        assert(text.skip(0) =~= text);
        assert(text.take(0) + swapped(text, active, values) =~= swapped(text, active, values));
    } else {
        let k = token_here(text);
        if 0 <= k < 10 && active.contains(k) {
            assert(!occurs_at(text, tokens()[k], 0));
        }
        let rest = text.skip(1);
        assert forall|i: int, k: int| 0 <= i < n - 1 && 0 <= k < 10 && active.contains(
            k,
        ) implies !#[trigger] occurs_at(rest, tokens()[k], i) by {
            lemma_occurs_after_skip(text, tokens()[k], 1, i);
            assert(!occurs_at(text, tokens()[k], i + 1));
        }
        lemma_swapped_copies(rest, active, values, n - 1);
        assert(rest.skip(n - 1) =~= text.skip(n));
        assert(seq![text[0]] + (rest.take(n - 1) + swapped(text.skip(n), active, values))
            =~= text.take(n) + swapped(text.skip(n), active, values));
    }
}

/// A replacement passes over a start of the text that holds no `%`.
proof fn lemma_replace_passes(
    prefix: Seq<char>,
    rest: Seq<char>,
    key: Seq<char>,
    value: Seq<char>,
)
    requires
        key.len() > 0,
        key[0] == '%',
        forall|i: int| 0 <= i < prefix.len() ==> prefix[i] != '%',
    ensures
        replaced(prefix + rest, key, value) == prefix + replaced(rest, key, value),
    decreases prefix.len(),
{
    let whole = prefix + rest;
    if prefix.len() == 0 {
        assert(whole =~= rest);
        assert(prefix + replaced(rest, key, value) =~= replaced(rest, key, value));
    } else if whole.len() < key.len() {
    } else {
        assert(whole.subrange(0, key.len() as int)[0] == prefix[0]);
        assert(!occurs_at(whole, key, 0));
        assert(whole.skip(1) =~= prefix.skip(1) + rest);
        lemma_replace_passes(prefix.skip(1), rest, key, value);
        assert(seq![whole[0]] + (prefix.skip(1) + replaced(rest, key, value)) =~= prefix
            + replaced(rest, key, value));
    }
}

/// The pass completes no placeholder: where the end of a placeholder from
/// position `from` on begins the text after the pass, it began the text
/// before it.
proof fn lemma_swapped_start_was_there(
    text: Seq<char>,
    active: Set<int>,
    values: Seq<Seq<char>>,
    t: int,
    from: int,
)
    requires
        values.len() == 10,
        forall|i: int| 0 <= i < 10 ==> inert(#[trigger] values[i]),
        0 <= t < 10,
        1 <= from <= tokens()[t].len(),
        occurs_at(swapped(text, active, values), tokens()[t].skip(from), 0),
    ensures
        occurs_at(text, tokens()[t].skip(from), 0),
    decreases text.len(),
{
    lemma_token_shape(t);
    let token = tokens()[t];
    let tail = token.skip(from);
    let after = swapped(text, active, values);
    if tail.len() == 0 {
        assert(text.subrange(0, 0) =~= tail);
    } else if text.len() == 0 {
    } else {
        let k = token_here(text);
        assert(after.subrange(0, tail.len() as int) == tail);
        if 0 <= k < 10 && occurs_at(text, tokens()[k], 0) && active.contains(k)
            && tokens()[k].len() > 0 {
            let value = values[k];
            assert(inert(value));
            if tail.len() <= value.len() {
                assert(tail.last() == token.last());
                assert(after.subrange(0, tail.len() as int)[tail.len() - 1] == value[tail.len()
                    - 1]);
                assert(false);
            } else {
                assert(token.subrange(from, from + value.len()) =~= value) by {
                    assert forall|i: int| 0 <= i < value.len() implies token[from + i]
                        == value[i] by {
                        assert(after.subrange(0, tail.len() as int)[i] == value[i]);
                        assert(tail[i] == token[from + i]);
                    }
                }
                assert(occurs_at(token, value, from));
                assert(occurs_in(tokens()[t], value));
                assert(false);
            }
        } else {
            let rest = swapped(text.skip(1), active, values);
            assert(after == seq![text[0]] + rest);
            assert(tail[0] == text[0]) by {
                assert(after.subrange(0, tail.len() as int)[0] == text[0]);
            }
            assert(token.skip(from + 1) =~= tail.skip(1));
            assert(rest.subrange(0, tail.len() - 1) =~= tail.skip(1)) by {
                assert forall|i: int| 0 <= i < tail.len() - 1 implies rest[i] == tail[i + 1] by {
                    assert(after.subrange(0, tail.len() as int)[i + 1] == rest[i]);
                }
            }
            assert(occurs_at(rest, token.skip(from + 1), 0));
            lemma_swapped_start_was_there(text.skip(1), active, values, t, from + 1);
            assert(text.subrange(0, tail.len() as int) =~= tail) by {
                assert forall|i: int| 0 <= i < tail.len() implies text[i] == tail[i] by {
                    if i > 0 {
                        assert(text.skip(1).subrange(0, tail.len() - 1)[i - 1] == text[i]);
                        assert(tail.skip(1)[i - 1] == tail[i]);
                    }
                }
            }
        }
    }
}

/// Replacing one more placeholder after the pass is the pass with that
/// placeholder among the active ones.
proof fn lemma_one_more(text: Seq<char>, active: Set<int>, values: Seq<Seq<char>>, j: int)
    requires
        values.len() == 10,
        forall|i: int| 0 <= i < 10 ==> inert(#[trigger] values[i]),
        tidy(text),
        0 <= j < 10,
        !active.contains(j),
    ensures
        replaced(swapped(text, active, values), tokens()[j], values[j]) == swapped(
            text,
            active.insert(j),
            values,
        ),
    decreases text.len(),
{
    lemma_token_shape(j);
    let key = tokens()[j];
    let value = values[j];
    let wider = active.insert(j);
    let before = swapped(text, active, values);
    if text.len() == 0 {
    } else {
        let k = token_here(text);
        let hit = 0 <= k < 10 && occurs_at(text, tokens()[k], 0);
        if hit {
            lemma_token_shape(k);
        }
        if hit && active.contains(k) {
            let n = tokens()[k].len() as int;
            let rest = text.skip(n);
            lemma_tidy_after_skip(text, n);
            lemma_one_more(rest, active, values, j);
            assert(inert(values[k]));
            lemma_replace_passes(values[k], swapped(rest, active, values), key, value);
        } else if hit && k == j {
            let n = key.len() as int;
            let rest = text.skip(n);
            assert forall|i: int, m: int| 0 <= i < n && 0 <= m < 10 && active.contains(
                m,
            ) implies !#[trigger] occurs_at(text, tokens()[m], i) by {
                if occurs_at(text, tokens()[m], i) {
                    assert(occurs_at(text, tokens()[j], 0));
                    assert(m != j);
                }
            }
            lemma_swapped_copies(text, active, values, n);
            assert(text.take(n) =~= key);
            let inner = swapped(rest, active, values);
            assert(before == key + inner);
            assert((key + inner).subrange(0, n) =~= key);
            assert((key + inner).skip(n) =~= inner);
            assert(occurs_at(key + inner, key, 0));
            lemma_tidy_after_skip(text, n);
            lemma_one_more(rest, active, values, j);
        } else {
            let rest = text.skip(1);
            let inner = swapped(rest, active, values);
            assert(!occurs_at(text, key, 0)) by {
                if occurs_at(text, key, 0) {
                    lemma_only_one_here(text, j);
                }
            }
            assert(before == seq![text[0]] + inner);
            assert(swapped(text, wider, values) == seq![text[0]] + swapped(rest, wider, values));
            lemma_tidy_after_skip(text, 1);
            lemma_one_more(rest, active, values, j);
            if before.len() >= key.len() {
                assert(!occurs_at(before, key, 0)) by {
                    if occurs_at(before, key, 0) {
                        assert(before.subrange(0, key.len() as int)[0] == text[0]);
                        assert(inner.subrange(0, key.len() - 1) =~= key.skip(1)) by {
                            assert forall|i: int| 0 <= i < key.len() - 1 implies inner[i] == key[i
                                + 1] by {
                                assert(before.subrange(0, key.len() as int)[i + 1] == inner[i]);
                            }
                        }
                        assert(occurs_at(inner, key.skip(1), 0));
                        lemma_swapped_start_was_there(rest, active, values, j, 1);
                        assert(text.subrange(0, key.len() as int) =~= key) by {
                            assert forall|i: int| 0 <= i < key.len() implies text[i] == key[i] by {
                                if i > 0 {
                                    assert(rest.subrange(0, key.len() - 1)[i - 1] == text[i]);
                                    assert(key.skip(1)[i - 1] == key[i]);
                                }
                            }
                        }
                    }
                }
                assert(before.skip(1) =~= inner);
            } else {
                lemma_short_text_unchanged(inner, key, value);
            }
        }
    }
}

/// Whether a character is white space.
pub open spec fn blank(c: char) -> bool {
    c == ' ' || c == '\n' || c == '\t' || c == '\r'
}

/// Whether the character at position `i` of `text` belongs to an occurrence
/// of a placeholder.
pub open spec fn covered(text: Seq<char>, i: int) -> bool {
    exists|k: int, at: int|
        0 <= k < 10 && #[trigger] occurs_at(text, tokens()[k], at) && at <= i < at
            + tokens()[k].len()
}

/// Whether the `len` characters of `text` from position `at` on stand
/// between white space or the ends of the text.
pub open spec fn bounded(text: Seq<char>, at: int, len: int) -> bool {
    &&& at == 0 || blank(text[at - 1])
    &&& at + len == text.len() || blank(text[at + len])
}

/// Whether the placeholders of `text` stand apart: every `%` belongs to an
/// occurrence of a placeholder, and every occurrence of a placeholder stands
/// between white space or the ends of the text.
pub open spec fn spaced(text: Seq<char>) -> bool {
    &&& forall|i: int| 0 <= i < text.len() && text[i] == '%' ==> #[trigger] covered(text, i)
    &&& forall|k: int, at: int|
        0 <= k < 10 && #[trigger] occurs_at(text, tokens()[k], at) ==> bounded(
            text,
            at,
            tokens()[k].len() as int,
        )
}

/// In a text whose placeholders stand apart, no other occurrence begins
/// inside an occurrence.
proof fn lemma_alone_here(text: Seq<char>, k: int, m: int, i: int)
    requires
        spaced(text),
        0 <= k < 10,
        0 <= m < 10,
        occurs_at(text, tokens()[k], 0),
        occurs_at(text, tokens()[m], i),
        0 <= i < tokens()[k].len(),
    ensures
        i == 0,
        m == k,
{
    let here = tokens()[k];
    let other = tokens()[m];
    lemma_token_shape(k);
    lemma_token_shape(m);
    assert(bounded(text, 0, here.len() as int));
    assert(bounded(text, i, other.len() as int));
    if i > 0 {
        assert(text.subrange(0, here.len() as int)[i - 1] == text[i - 1]);
        lemma_token_chars(k, i - 1);
        assert(false);
    }
    if other.len() < here.len() {
        assert(text.subrange(0, here.len() as int)[other.len() as int] == text[other.len() as int]);
        lemma_token_chars(k, other.len() as int);
        assert(false);
    }
    if here.len() < other.len() {
        assert(text.subrange(0, other.len() as int)[here.len() as int] == text[here.len() as int]);
        lemma_token_chars(m, here.len() as int);
        assert(false);
    }
    if m != k {
        lemma_tokens_differ(m, k);
    }
}

/// What follows an occurrence at the start of a text whose placeholders
/// stand apart is such a text again, and it is empty or begins with white
/// space.
proof fn lemma_spaced_after_token(text: Seq<char>, k: int)
    requires
        spaced(text),
        0 <= k < 10,
        occurs_at(text, tokens()[k], 0),
    ensures
        spaced(text.skip(tokens()[k].len() as int)),
        text.len() == tokens()[k].len() || blank(text[tokens()[k].len() as int]),
{
    lemma_token_shape(k);
    let n = tokens()[k].len() as int;
    let rest = text.skip(n);
    assert(bounded(text, 0, n));
    assert forall|i: int| 0 <= i < rest.len() && rest[i] == '%' implies #[trigger] covered(
        rest,
        i,
    ) by {
        assert(covered(text, i + n));
        let (m, at) = choose|m: int, at: int|
            0 <= m < 10 && #[trigger] occurs_at(text, tokens()[m], at) && at <= i + n < at
                + tokens()[m].len();
        if at < n {
            lemma_alone_here(text, k, m, at);
        }
        lemma_occurs_after_skip(text, tokens()[m], n, at - n);
        assert(occurs_at(rest, tokens()[m], at - n));
    }
    assert forall|m: int, at: int|
        0 <= m < 10 && #[trigger] occurs_at(rest, tokens()[m], at) implies bounded(
        rest,
        at,
        tokens()[m].len() as int,
    ) by {
        lemma_occurs_after_skip(text, tokens()[m], n, at);
        assert(occurs_at(text, tokens()[m], at + n));
        assert(bounded(text, at + n, tokens()[m].len() as int));
    }
}

/// What follows the first character of a text whose placeholders stand
/// apart, where no placeholder stands at the start, is such a text again, and
/// that character is no `%`.
proof fn lemma_spaced_after_char(text: Seq<char>)
    requires
        spaced(text),
        text.len() > 0,
        forall|k: int| 0 <= k < 10 ==> !occurs_at(text, #[trigger] tokens()[k], 0),
    ensures
        spaced(text.skip(1)),
        text[0] != '%',
{
    let rest = text.skip(1);
    if text[0] == '%' {
        assert(covered(text, 0));
        let (m, at) = choose|m: int, at: int|
            0 <= m < 10 && #[trigger] occurs_at(text, tokens()[m], at) && at <= 0 < at
                + tokens()[m].len();
        assert(occurs_at(text, tokens()[m], 0));
        assert(false);
    }
    assert forall|i: int| 0 <= i < rest.len() && rest[i] == '%' implies #[trigger] covered(
        rest,
        i,
    ) by {
        assert(covered(text, i + 1));
        let (m, at) = choose|m: int, at: int|
            0 <= m < 10 && #[trigger] occurs_at(text, tokens()[m], at) && at <= i + 1 < at
                + tokens()[m].len();
        lemma_occurs_after_skip(text, tokens()[m], 1, at - 1);
        assert(occurs_at(rest, tokens()[m], at - 1));
    }
    assert forall|m: int, at: int|
        0 <= m < 10 && #[trigger] occurs_at(rest, tokens()[m], at) implies bounded(
        rest,
        at,
        tokens()[m].len() as int,
    ) by {
        lemma_occurs_after_skip(text, tokens()[m], 1, at);
        assert(occurs_at(text, tokens()[m], at + 1));
        assert(bounded(text, at + 1, tokens()[m].len() as int));
    }
}

/// The pass keeps white space at the start of a text.
proof fn lemma_swapped_keeps_blank(text: Seq<char>, active: Set<int>, values: Seq<Seq<char>>)
    requires
        text.len() > 0,
        blank(text[0]),
    ensures
        swapped(text, active, values).len() > 0,
        swapped(text, active, values)[0] == text[0],
{
    let k = token_here(text);
    if 0 <= k < 10 && occurs_at(text, tokens()[k], 0) {
        lemma_token_shape(k);
        assert(text.subrange(0, tokens()[k].len() as int)[0] == text[0]);
    }
}

/// Where the pattern stands at none of the first `n` positions, a
/// replacement copies the first `n` characters.
proof fn lemma_replace_copies(text: Seq<char>, key: Seq<char>, value: Seq<char>, n: int)
    requires
        0 <= n <= text.len(),
        forall|i: int| 0 <= i < n ==> !#[trigger] occurs_at(text, key, i),
    ensures
        replaced(text, key, value) == text.take(n) + replaced(text.skip(n), key, value),
    decreases n,
{
    if n == 0 {
        assert(text.skip(0) =~= text);
        assert(text.take(0) + replaced(text, key, value) =~= replaced(text, key, value));
    } else if key.len() == 0 || text.len() < key.len() {
        if key.len() > 0 {
            lemma_short_text_unchanged(text.skip(n), key, value);
        }
        assert(text.take(n) + text.skip(n) =~= text);
    } else {
        assert(!occurs_at(text, key, 0));
        let rest = text.skip(1);
        assert forall|i: int| 0 <= i < n - 1 implies !#[trigger] occurs_at(rest, key, i) by {
            lemma_occurs_after_skip(text, key, 1, i);
            assert(!occurs_at(text, key, i + 1));
        }
        lemma_replace_copies(rest, key, value, n - 1);
        assert(rest.skip(n - 1) =~= text.skip(n));
        assert(seq![text[0]] + (rest.take(n - 1) + replaced(text.skip(n), key, value))
            =~= text.take(n) + replaced(text.skip(n), key, value));
    }
}

/// Replacing one more placeholder after the pass is the pass with that
/// placeholder among the active ones, in a text whose placeholders stand
/// apart.
proof fn lemma_one_more_apart(text: Seq<char>, active: Set<int>, values: Seq<Seq<char>>, j: int)
    requires
        values.len() == 10,
        forall|i: int| 0 <= i < 10 ==> unmarked(#[trigger] values[i]),
        spaced(text),
        0 <= j < 10,
        !active.contains(j),
    ensures
        replaced(swapped(text, active, values), tokens()[j], values[j]) == swapped(
            text,
            active.insert(j),
            values,
        ),
    decreases text.len(),
{
    lemma_token_shape(j);
    let key = tokens()[j];
    let value = values[j];
    let wider = active.insert(j);
    let before = swapped(text, active, values);
    if text.len() == 0 {
    } else {
        let k = token_here(text);
        let hit = 0 <= k < 10 && occurs_at(text, tokens()[k], 0);
        if hit {
            lemma_token_shape(k);
            let n = tokens()[k].len() as int;
            let rest = text.skip(n);
            let inner = swapped(rest, active, values);
            lemma_spaced_after_token(text, k);
            lemma_one_more_apart(rest, active, values, j);
            if active.contains(k) {
                assert(unmarked(values[k]));
                lemma_replace_passes(values[k], inner, key, value);
            } else {
                assert forall|i: int, m: int| 0 <= i < n && 0 <= m < 10 && active.contains(
                    m,
                ) implies !#[trigger] occurs_at(text, tokens()[m], i) by {
                    if occurs_at(text, tokens()[m], i) {
                        lemma_alone_here(text, k, m, i);
                    }
                }
                lemma_swapped_copies(text, active, values, n);
                assert(text.take(n) =~= tokens()[k]);
                assert(before == tokens()[k] + inner);
                if k == j {
                    assert((key + inner).subrange(0, n) =~= key);
                    assert((key + inner).skip(n) =~= inner);
                    assert(occurs_at(key + inner, key, 0));
                } else {
                    assert forall|i: int, m: int| 0 <= i < n && 0 <= m < 10 && wider.contains(
                        m,
                    ) implies !#[trigger] occurs_at(text, tokens()[m], i) by {
                        if occurs_at(text, tokens()[m], i) {
                            lemma_alone_here(text, k, m, i);
                        }
                    }
                    lemma_swapped_copies(text, wider, values, n);
                    let whole = tokens()[k] + inner;
                    if rest.len() > 0 {
                        lemma_swapped_keeps_blank(rest, active, values);
                    }
                    assert forall|d: int| 0 <= d < n implies !#[trigger] occurs_at(
                        whole,
                        key,
                        d,
                    ) by {
                        if occurs_at(whole, key, d) {
                            if d + key.len() > n {
                                assert(rest.len() > 0);
                                assert(whole.subrange(d, d + key.len())[n - d] == whole[n]);
                                assert(whole[n] == inner[0]);
                                lemma_token_chars(j, n - d);
                                assert(false);
                            } else {
                                assert(text.subrange(d, d + key.len()) =~= whole.subrange(
                                    d,
                                    d + key.len(),
                                )) by {
                                    assert forall|y: int| d <= y < d + key.len() implies #[trigger] text[y]
                                        == whole[y] by {
                                        assert(text.subrange(0, n)[y] == text[y]);
                                    }
                                }
                                assert(occurs_at(text, key, d));
                                lemma_alone_here(text, k, j, d);
                                assert(false);
                            }
                        }
                    }
                    lemma_replace_copies(whole, key, value, n);
                    assert(whole.take(n) =~= tokens()[k]);
                    assert(whole.skip(n) =~= inner);
                }
            }
        } else {
            assert forall|m: int| 0 <= m < 10 implies !occurs_at(text, #[trigger] tokens()[m], 0) by {
                if occurs_at(text, tokens()[m], 0) {
                    assert(0 <= k < 10 && occurs_at(text, tokens()[k], 0));
                }
            }
            lemma_spaced_after_char(text);
            let rest = text.skip(1);
            let inner = swapped(rest, active, values);
            lemma_one_more_apart(rest, active, values, j);
            assert(before == seq![text[0]] + inner);
            lemma_replace_passes(seq![text[0]], inner, key, value);
        }
    }
}

/// The placeholders at the first `n` positions of `order`.
spec fn taken(order: Seq<int>, n: int) -> Set<int> {
    Set::new(|k: int| exists|i: int| 0 <= i < n && #[trigger] order[i] == k)
}

/// The placeholders in the order given by `order`.
pub open spec fn tokens_in(order: Seq<int>) -> Seq<Seq<char>> {
    Seq::new(order.len(), |i: int| tokens()[order[i]])
}

/// The values in the order given by `order`.
pub open spec fn values_in(values: Seq<Seq<char>>, order: Seq<int>) -> Seq<Seq<char>> {
    Seq::new(order.len(), |i: int| values[order[i]])
}

/// Whether `order` names each of the ten placeholders once.
pub open spec fn names_each_once(order: Seq<int>) -> bool {
    &&& order.len() == 10
    &&& forall|i: int| 0 <= i < 10 ==> 0 <= #[trigger] order[i] < 10
    &&& forall|i: int, j: int| 0 <= i < j < 10 ==> order[i] != order[j]
    &&& forall|k: int| 0 <= k < 10 ==> #[trigger] order.contains(k)
}

/// Whether a template and the values go together in one of the two ways
/// for which the replacements do not get in each other's way: no two
/// placeholders of the template overlap and every value is inert; or the
/// placeholders of the template stand apart and no value has a `%`.
pub open spec fn fitting(template: Seq<char>, values: Seq<Seq<char>>) -> bool {
    ||| tidy(template) && forall|i: int| 0 <= i < 10 ==> inert(#[trigger] values[i])
    ||| spaced(template) && forall|i: int| 0 <= i < 10 ==> unmarked(#[trigger] values[i])
}

/// `text` with every occurrence of a placeholder replaced by the value of
/// that placeholder in one pass from the left, and everything else kept.
pub open spec fn replaced_together(text: Seq<char>, values: Seq<Seq<char>>) -> Seq<char> {
    swapped(text, Set::new(|k: int| 0 <= k < 10), values)
}

/// Replacing the first `n` placeholders of `order` one after another is one
/// pass that replaces them together.
proof fn lemma_in_turn_is_one_pass(
    template: Seq<char>,
    values: Seq<Seq<char>>,
    order: Seq<int>,
    n: int,
)
    requires
        values.len() == 10,
        fitting(template, values),
        names_each_once(order),
        0 <= n <= 10,
    ensures
        substituted(template, tokens_in(order).take(n), values_in(values, order).take(n))
            == swapped(template, taken(order, n), values),
    decreases n,
{
    let keys = tokens_in(order);
    let given = values_in(values, order);
    if n == 0 {
        assert forall|i: int, k: int|
            0 <= i < template.len() && 0 <= k < 10 && taken(order, 0).contains(
                k,
            ) implies !#[trigger] occurs_at(template, tokens()[k], i) by {}
        lemma_swapped_copies(template, taken(order, 0), values, template.len() as int);
        assert(template.skip(template.len() as int) =~= Seq::<char>::empty());
        assert(template.take(template.len() as int) + Seq::<char>::empty() =~= template);
    } else {
        lemma_in_turn_is_one_pass(template, values, order, n - 1);
        let j = order[n - 1];
        assert(keys.take(n).drop_last() =~= keys.take(n - 1));
        assert(given.take(n).drop_last() =~= given.take(n - 1));
        assert(keys.take(n).last() == tokens()[j]);
        assert(given.take(n).last() == values[j]);
        assert(!taken(order, n - 1).contains(j));
        assert(taken(order, n) =~= taken(order, n - 1).insert(j)) by {
            assert forall|k: int| taken(order, n).contains(k) <==> taken(order, n - 1).insert(
                j,
            ).contains(k) by {
                if taken(order, n).contains(k) {
                    let i = choose|i: int| 0 <= i < n && #[trigger] order[i] == k;
                    if i < n - 1 {
                        assert(taken(order, n - 1).contains(k));
                    }
                }
                if taken(order, n - 1).contains(k) {
                    let i = choose|i: int| 0 <= i < n - 1 && #[trigger] order[i] == k;
                    assert(0 <= i < n && order[i] == k);
                }
                if k == j {
                    assert(0 <= n - 1 < n && order[n - 1] == k);
                }
            }
        }
        if tidy(template) && forall|i: int| 0 <= i < 10 ==> inert(#[trigger] values[i]) {
            lemma_one_more(template, taken(order, n - 1), values, j);
        } else {
            lemma_one_more_apart(template, taken(order, n - 1), values, j);
        }
    }
}

/// The placeholders in their own order.
spec fn own_order() -> Seq<int> {
    Seq::new(10, |i: int| i)
}

proof fn lemma_own_order()
    ensures
        names_each_once(own_order()),
        tokens_in(own_order()) == tokens(),
        taken(own_order(), 10) == Set::new(|k: int| 0 <= k < 10),
{
    let plain = own_order();
    lemma_token_shape(0);
    assert forall|k: int| 0 <= k < 10 implies #[trigger] plain.contains(k) by {
        assert(plain[k] == k);
    }
    assert(tokens_in(plain) =~= tokens());
    assert(taken(plain, 10) =~= Set::new(|k: int| 0 <= k < 10)) by {
        assert forall|k: int| taken(plain, 10).contains(k) <==> 0 <= k < 10 by {
            if 0 <= k < 10 {
                assert(plain[k] == k);
            }
        }
    }
}

/// Rendering is one pass: where the template and the values fit, the
/// rendered text is the template with every occurrence of a placeholder
/// replaced by the value of that placeholder, and everything else as it was.
pub proof fn lemma_rendering_is_one_pass(context: TemplateContext, template: Seq<char>)
    requires
        fitting(template, context.values()),
    ensures
        context.rendered(template) == replaced_together(template, context.values()),
{
    let values = context.values();
    lemma_own_order();
    lemma_in_turn_is_one_pass(template, values, own_order(), 10);
    assert(tokens_in(own_order()).take(10) =~= tokens());
    assert(values_in(values, own_order()).take(10) =~= values);
}

/// One pass over a text whose placeholders stand apart leaves no `%`, where
/// no value has one.
proof fn lemma_together_is_unmarked(text: Seq<char>, values: Seq<Seq<char>>)
    requires
        values.len() == 10,
        forall|i: int| 0 <= i < 10 ==> unmarked(#[trigger] values[i]),
        spaced(text),
    ensures
        unmarked(replaced_together(text, values)),
    decreases text.len(),
{
    let all = Set::new(|k: int| 0 <= k < 10);
    let after = swapped(text, all, values);
    if text.len() > 0 {
        let k = token_here(text);
        if 0 <= k < 10 && occurs_at(text, tokens()[k], 0) {
            lemma_token_shape(k);
            let rest = text.skip(tokens()[k].len() as int);
            lemma_spaced_after_token(text, k);
            lemma_together_is_unmarked(rest, values);
            assert(all.contains(k));
            assert(unmarked(values[k]));
            assert(after == values[k] + swapped(rest, all, values));
        } else {
            assert forall|m: int| 0 <= m < 10 implies !occurs_at(text, #[trigger] tokens()[m], 0) by {
                if occurs_at(text, tokens()[m], 0) {
                    assert(0 <= k < 10 && occurs_at(text, tokens()[k], 0));
                }
            }
            lemma_spaced_after_char(text);
            lemma_together_is_unmarked(text.skip(1), values);
            assert(after == seq![text[0]] + swapped(text.skip(1), all, values));
        }
    }
}

/// Rendering a template whose placeholders stand apart leaves no `%`
/// behind, and so no placeholder, where no value has a `%`; a value may be
/// empty.
pub proof fn lemma_no_placeholder_left_apart(
    context: TemplateContext,
    template: Seq<char>,
    k: int,
)
    requires
        spaced(template),
        forall|i: int| 0 <= i < 10 ==> unmarked(#[trigger] context.values()[i]),
        0 <= k < 10,
    ensures
        unmarked(context.rendered(template)),
        !occurs_in(context.rendered(template), tokens()[k]),
{
    let out = context.rendered(template);
    lemma_token_shape(k);
    lemma_rendering_is_one_pass(context, template);
    lemma_together_is_unmarked(template, context.values());
    assert forall|at: int| !occurs_at(out, tokens()[k], at) by {
        if occurs_at(out, tokens()[k], at) {
            assert(out.subrange(at, at + tokens()[k].len())[0] == out[at]);
        }
    }
}

/// The order of the replacements does not matter: where the template and the
/// values fit, replacing the ten placeholders one after another in any order
/// gives the rendered text.
pub proof fn lemma_order_does_not_matter(
    context: TemplateContext,
    template: Seq<char>,
    order: Seq<int>,
)
    requires
        fitting(template, context.values()),
        names_each_once(order),
    ensures
        substituted(template, tokens_in(order), values_in(context.values(), order))
            == context.rendered(template),
{
    let values = context.values();
    lemma_own_order();
    lemma_rendering_is_one_pass(context, template);
    lemma_in_turn_is_one_pass(template, values, order, 10);
    assert(tokens_in(order).take(10) =~= tokens_in(order));
    assert(values_in(values, order).take(10) =~= values_in(values, order));
    assert(taken(order, 10) =~= Set::new(|k: int| 0 <= k < 10)) by {
        assert forall|k: int| taken(order, 10).contains(k) <==> 0 <= k < 10 by {
            if taken(order, 10).contains(k) {
                let i = choose|i: int| 0 <= i < 10 && #[trigger] order[i] == k;
            }
            if 0 <= k < 10 {
                assert(order.contains(k));
                let at = choose|at: int| 0 <= at < order.len() && order[at] == k;
                assert(0 <= at < 10 && order[at] == k);
            }
        }
    }
}

} // verus!
