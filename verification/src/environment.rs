//! The environment that the command is given: which of the added variables
//! count, and how the search path is put together.

use vstd::prelude::*;
use vstd::string::StringExecFns;

verus! {

/// A list of variables, each a key and a value.
pub type Settings = Seq<(Seq<char>, Seq<char>)>;

/// True when the key of the variable at `i` occurs again later in the list.
pub open spec fn set_again(env: Settings, i: int) -> bool {
    exists|j: int| i < j < env.len() && (#[trigger] env[j]).0 == env[i].0
}

/// The variables that count: a variable whose key occurs again later is
/// overridden and left out; the others stay, in their order.
pub open spec fn effective(env: Settings) -> Settings
    decreases env.len(),
{
    if env.len() == 0 {
        Seq::empty()
    } else if set_again(env, 0) {
        effective(env.drop_first())
    } else {
        seq![env[0]] + effective(env.drop_first())
    }
}

/// Leaves out every variable that a later one overrides.
pub fn effective_env(env: &Vec<(String, String)>) -> (kept: Vec<(String, String)>)
    ensures
        kept.deep_view() == effective(env.deep_view()),
{
    let ghost all = env.deep_view();
    let mut kept: Vec<(String, String)> = Vec::new();
    let mut i: usize = 0;
    assert(all.subrange(0, all.len() as int) =~= all);
    assert(kept.deep_view() =~= Seq::<(Seq<char>, Seq<char>)>::empty());
    while i < env.len()
        invariant
            i <= env.len(),
            all == env.deep_view(),
            kept.deep_view() + effective(all.subrange(i as int, all.len() as int)) == effective(
                all,
            ),
        decreases env.len() - i,
    {
        let ghost tail = all.subrange(i as int, all.len() as int);
        let mut later = false;
        let mut j: usize = i + 1;
        while j < env.len()
            invariant
                i < j <= env.len(),
                all == env.deep_view(),
                later == (exists|k: int| i < k < j && (#[trigger] all[k]).0 == all[i as int].0),
            decreases env.len() - j,
        {
            if env[j].0 == env[i].0 {
                assert(all[j as int].0 == all[i as int].0);
                later = true;
            }
            j += 1;
        }
        proof {
            assert(tail.drop_first() =~= all.subrange(i + 1, all.len() as int));
            if later {
                let k = choose|k: int| i < k < all.len() && (#[trigger] all[k]).0 == all[i as int].0;
                assert(tail[k - i] == all[k]);
                assert(set_again(tail, 0));
            } else {
                if set_again(tail, 0) {
                    let k = choose|k: int| 0 < k < tail.len() && (#[trigger] tail[k]).0 == tail[0].0;
                    assert(all[k + i] == tail[k]);
                    assert(false);
                }
            }
        }
        if !later {
            let ghost before = kept.deep_view();
            kept.push((env[i].0.clone(), env[i].1.clone()));
            assert(kept.deep_view() =~= before.push(all[i as int]));
            assert(before.push(all[i as int]) + effective(tail.drop_first()) =~= before + (
            seq![tail[0]] + effective(tail.drop_first())));
        }
        i += 1;
    }
    assert(all.subrange(i as int, all.len() as int) =~= Seq::<(Seq<char>, Seq<char>)>::empty());
    assert(kept.deep_view() + Seq::<(Seq<char>, Seq<char>)>::empty() =~= kept.deep_view());
    kept
}

/// A variable counts exactly when it stands in the list and no later one has
/// its key.
pub proof fn effective_holds_the_last(env: Settings, setting: (Seq<char>, Seq<char>))
    ensures
        effective(env).contains(setting) <==> exists|i: int|
            0 <= i < env.len() && #[trigger] env[i] == setting && !set_again(env, i),
    decreases env.len(),
{
    if env.len() > 0 {
        let rest = env.drop_first();
        effective_holds_the_last(rest, setting);
        assert forall|i: int| 0 <= i < rest.len() implies set_again(rest, i) == set_again(
            env,
            i + 1,
        ) by {
            shifted_set_again(env, i);
        }
        if effective(env).contains(setting) {
            let at = choose|at: int| 0 <= at < effective(env).len() && effective(env)[at] == setting;
            if !set_again(env, 0) && at == 0 {
                assert(env[0] == setting);
            } else {
                let inner = if set_again(env, 0) {
                    at
                } else {
                    at - 1
                };
                assert(effective(rest)[inner] == setting);
                assert(effective(rest).contains(setting));
                let i = choose|i: int|
                    0 <= i < rest.len() && #[trigger] rest[i] == setting && !set_again(rest, i);
                assert(env[i + 1] == setting && !set_again(env, i + 1));
            }
        }
        if exists|i: int| 0 <= i < env.len() && #[trigger] env[i] == setting && !set_again(env, i) {
            let i = choose|i: int|
                0 <= i < env.len() && #[trigger] env[i] == setting && !set_again(env, i);
            if i == 0 {
                assert(effective(env)[0] == setting);
            } else {
                assert(rest[i - 1] == setting && !set_again(rest, i - 1));
                assert(effective(rest).contains(setting));
                let at = choose|at: int|
                    0 <= at < effective(rest).len() && effective(rest)[at] == setting;
                if set_again(env, 0) {
                    assert(effective(env)[at] == setting);
                } else {
                    assert(effective(env)[at + 1] == setting);
                }
            }
        }
    }
}

/// Without its first variable, a list repeats a key where the whole list does.
proof fn shifted_set_again(env: Settings, i: int)
    requires
        0 <= i < env.len() - 1,
    ensures
        set_again(env.drop_first(), i) == set_again(env, i + 1),
{
    let rest = env.drop_first();
    if set_again(rest, i) {
        let j = choose|j: int| i < j < rest.len() && (#[trigger] rest[j]).0 == rest[i].0;
        assert(env[j + 1] == rest[j]);
    }
    if set_again(env, i + 1) {
        let j = choose|j: int| i + 1 < j < env.len() && (#[trigger] env[j]).0 == env[i + 1].0;
        assert(rest[j - 1] == env[j]);
    }
}

/// No key occurs twice among the variables that count.
pub proof fn effective_keys_differ(env: Settings, a: int, b: int)
    requires
        0 <= a < b < effective(env).len(),
    ensures
        effective(env)[a].0 != effective(env)[b].0,
    decreases env.len(),
{
    let rest = env.drop_first();
    if set_again(env, 0) {
        effective_keys_differ(rest, a, b);
    } else if a > 0 {
        effective_keys_differ(rest, a - 1, b - 1);
    } else {
        let other = effective(rest)[b - 1];
        assert(effective(rest).contains(other));
        effective_holds_the_last(rest, other);
        let i = choose|i: int|
            0 <= i < rest.len() && #[trigger] rest[i] == other && !set_again(rest, i);
        assert(env[i + 1] == other);
    }
}

/// The parts with `separator` between them.
pub open spec fn joined(parts: Seq<Seq<char>>, separator: Seq<char>) -> Seq<char>
    decreases parts.len(),
{
    if parts.len() == 0 {
        Seq::empty()
    } else if parts.len() == 1 {
        parts[0]
    } else {
        joined(parts.drop_last(), separator) + separator + parts.last()
    }
}

/// The search path of the command: the added directories in their order, then
/// the inherited search path where there is one.
pub open spec fn path_entries(extra: Seq<Seq<char>>, inherited: Option<Seq<char>>) -> Seq<
    Seq<char>,
> {
    match inherited {
        Some(path) => extra.push(path),
        None => extra,
    }
}

/// Puts the search path of the command together.
pub fn search_path(extra: &Vec<String>, inherited: Option<&str>, separator: &str) -> (path:
    String)
    ensures
        path@ == joined(path_entries(extra.deep_view(), inherited.deep_view()), separator@),
{
    let ghost parts = extra.deep_view();
    let mut path = String::new();
    let mut i: usize = 0;
    assert(parts.take(0) =~= Seq::<Seq<char>>::empty());
    while i < extra.len()
        invariant
            i <= extra.len(),
            parts == extra.deep_view(),
            path@ == joined(parts.take(i as int), separator@),
        decreases extra.len() - i,
    {
        proof {
            assert(parts.take(i + 1).drop_last() =~= parts.take(i as int));
            assert(parts.take(i + 1).last() == extra@[i as int]@);
        }
        if i > 0 {
            path.append(separator);
        }
        path.append(extra[i].as_str());
        assert(path@ =~= joined(parts.take(i + 1), separator@));
        i += 1;
    }
    assert(parts.take(i as int) =~= parts);
    match inherited {
        Some(old) => {
            proof {
                assert(parts.push(old@).drop_last() =~= parts);
            }
            if extra.len() > 0 {
                path.append(separator);
            }
            path.append(old);
            assert(path@ =~= joined(parts.push(old@), separator@));
            path
        },
        None => path,
    }
}

} // verus!
