//! The environment of a command: what the service passes on, with the changes
//! that a request asks for.

use crate::table::{are_entries_of, Table};
use vstd::prelude::*;

verus! {

/// The variables of an environment.
pub type EnvironmentView = Map<Seq<char>, Seq<char>>;

/// The environment that a list of variables stands for. A later value of a
/// variable replaces an earlier one.
pub open spec fn environment(variables: Seq<(String, String)>) -> EnvironmentView
    decreases variables.len(),
{
    if variables.len() == 0 {
        Map::empty()
    } else {
        environment(variables.drop_last()).insert(variables.last().0@, variables.last().1@)
    }
}

/// The environment after one change: a value sets the variable, no value removes
/// it.
pub open spec fn changed(
    env: EnvironmentView,
    name: Seq<char>,
    value: Option<String>,
) -> EnvironmentView {
    match value {
        Some(text) => env.insert(name, text@),
        None => env.remove(name),
    }
}

/// The environment after a series of changes.
pub open spec fn overridden(
    env: EnvironmentView,
    overrides: Seq<(String, Option<String>)>,
) -> EnvironmentView
    decreases overrides.len(),
{
    if overrides.len() == 0 {
        env
    } else {
        changed(
            overridden(env, overrides.drop_last()),
            overrides.last().0@,
            overrides.last().1,
        )
    }
}

/// The series of changes of a request; none where it asks for none.
pub open spec fn requested(overrides: Option<Vec<(String, Option<String>)>>) -> Seq<
    (String, Option<String>),
> {
    match overrides {
        Some(list) => list@,
        None => Seq::empty(),
    }
}

spec fn as_environment(map: Map<Seq<char>, String>) -> EnvironmentView {
    map.map_values(|value: String| value@)
}

proof fn lemma_listed_environment(
    list: Seq<(String, String)>,
    map: Map<Seq<char>, String>,
    count: int,
)
    requires
        are_entries_of(list, map),
        0 <= count <= list.len(),
    ensures
        forall|name: Seq<char>| #[trigger]
            environment(list.take(count)).contains_key(name) ==> exists|i: int|
                0 <= i < count && (#[trigger] list[i]).0@ == name,
        forall|i: int|
            0 <= i < count ==> environment(list.take(count)).contains_key(
                (#[trigger] list[i]).0@,
            ) && environment(list.take(count))[list[i].0@] == list[i].1@,
    decreases count,
{
    if count > 0 {
        lemma_listed_environment(list, map, count - 1);
        assert(list.take(count).drop_last() =~= list.take(count - 1));
        assert(list.take(count).last() == list[count - 1]);
        let shorter = environment(list.take(count - 1));
        assert forall|name: Seq<char>| #[trigger]
            environment(list.take(count)).contains_key(name) implies exists|i: int|
            0 <= i < count && (#[trigger] list[i]).0@ == name by {
            if !shorter.contains_key(name) {
                assert(list[count - 1].0@ == name);
            }
        }
    } else {
        assert(list.take(count) =~= Seq::empty());
    }
}

proof fn lemma_entries_environment(list: Seq<(String, String)>, map: Map<Seq<char>, String>)
    requires
        are_entries_of(list, map),
    ensures
        environment(list) == as_environment(map),
{
    lemma_listed_environment(list, map, list.len() as int);
    assert(list.take(list.len() as int) =~= list);
    assert(environment(list) =~= as_environment(map));
}

/// Applies the changes that a request asks for to an environment.
pub fn apply_overrides(
    env: Vec<(String, String)>,
    overrides: Option<Vec<(String, Option<String>)>>,
) -> (result: Vec<(String, String)>)
    ensures
        environment(result@) == overridden(environment(env@), requested(overrides)),
        forall|i: int, j: int|
            0 <= i < j < result@.len() ==> (#[trigger] result@[i]).0@ != (
            #[trigger] result@[j]).0@,
{
    let mut table: Table<String, String> = Table::new();
    assert(as_environment(table@) =~= environment(env@.take(0)));
    let mut i: usize = 0;
    while i < env.len()
        invariant
            i <= env@.len(),
            as_environment(table@) == environment(env@.take(i as int)),
        decreases env@.len() - i,
    {
        let ghost before = table@;
        let (name, value) = &env[i];
        let _ = table.insert(name.clone(), value.clone());
        proof {
            assert(env@.take(i + 1).drop_last() =~= env@.take(i as int));
            assert(as_environment(table@) =~= as_environment(before).insert(name@, value@));
        }
        i = i + 1;
    }
    assert(env@.take(env@.len() as int) =~= env@);
    if let Some(list) = overrides {
        let ghost start = environment(env@);
        assert(overridden(start, list@.take(0)) == start);
        let mut j: usize = 0;
        while j < list.len()
            invariant
                j <= list@.len(),
                as_environment(table@) == overridden(start, list@.take(j as int)),
            decreases list@.len() - j,
        {
            let ghost before = table@;
            let (name, value) = &list[j];
            match value {
                Some(text) => {
                    let _ = table.insert(name.clone(), text.clone());
                    assert(as_environment(table@) =~= as_environment(before).insert(name@, text@));
                },
                None => {
                    let _ = table.remove(name);
                    assert(as_environment(table@) =~= as_environment(before).remove(name@));
                },
            }
            proof {
                assert(list@.take(j + 1).drop_last() =~= list@.take(j as int));
            }
            j = j + 1;
        }
        assert(list@.take(list@.len() as int) =~= list@);
    }
    let ghost finished = table@;
    let result = table.into_entries();
    proof {
        lemma_entries_environment(result@, finished);
    }
    result
}

/// A request's changes take effect exactly: a variable that is set has the
/// requested value, one that is removed is gone, and every other variable is as
/// it was.
pub proof fn law_overrides_take_effect(
    env: EnvironmentView,
    overrides: Seq<(String, Option<String>)>,
    name: Seq<char>,
)
    requires
        forall|i: int, j: int|
            0 <= i < j < overrides.len() ==> (#[trigger] overrides[i]).0@ != (
            #[trigger] overrides[j]).0@,
    ensures
        forall|i: int|
            0 <= i < overrides.len() && (#[trigger] overrides[i]).0@ == name ==> match overrides[i].1 {
                Some(value) => overridden(env, overrides).contains_key(name) && overridden(
                    env,
                    overrides,
                )[name] == value@,
                None => !overridden(env, overrides).contains_key(name),
            },
        (forall|i: int| 0 <= i < overrides.len() ==> (#[trigger] overrides[i]).0@ != name) ==> {
            &&& overridden(env, overrides).contains_key(name) == env.contains_key(name)
            &&& env.contains_key(name) ==> overridden(env, overrides)[name] == env[name]
        },
    decreases overrides.len(),
{
    if overrides.len() > 0 {
        let head = overrides.drop_last();
        let last = overrides.last();
        assert(overrides[overrides.len() - 1] == last);
        assert forall|i: int, j: int| 0 <= i < j < head.len() implies (#[trigger] head[i]).0@ != (
        #[trigger] head[j]).0@ by {
            assert(overrides[i].0@ != overrides[j].0@);
        }
        law_overrides_take_effect(env, head, name);
        assert forall|i: int|
            0 <= i < overrides.len() && (
            #[trigger] overrides[i]).0@ == name implies match overrides[i].1 {
            Some(value) => overridden(env, overrides).contains_key(name) && overridden(
                env,
                overrides,
            )[name] == value@,
            None => !overridden(env, overrides).contains_key(name),
        } by {
            if i < head.len() {
                assert(head[i] == overrides[i]);
                assert(overrides[i].0@ != overrides[overrides.len() - 1].0@);
            }
        }
        if forall|i: int| 0 <= i < overrides.len() ==> (#[trigger] overrides[i]).0@ != name {
            assert forall|i: int| 0 <= i < head.len() implies (#[trigger] head[i]).0@ != name by {
                assert(overrides[i].0@ != name);
            }
        }
    }
}

/// Whether a list of variables gives a variable its last value at this place.
pub open spec fn gives_last(variables: Seq<(String, String)>, at: int, name: Seq<char>) -> bool {
    &&& 0 <= at < variables.len()
    &&& variables[at].0@ == name
    &&& forall|i: int| at < i < variables.len() ==> (#[trigger] variables[i]).0@ != name
}

/// A list of variables stands for the environment in which each has the last value
/// that the list gives it, and that has no others.
pub proof fn law_the_last_value_counts(
    variables: Seq<(String, String)>,
    at: int,
    name: Seq<char>,
)
    ensures
        gives_last(variables, at, name) ==> environment(variables).contains_key(name)
            && environment(variables)[name] == variables[at].1@,
        (forall|i: int| 0 <= i < variables.len() ==> (#[trigger] variables[i]).0@ != name)
            ==> !environment(variables).contains_key(name),
    decreases variables.len(),
{
    if variables.len() > 0 {
        let head = variables.drop_last();
        law_the_last_value_counts(head, at, name);
        assert(variables[variables.len() - 1] == variables.last());
        if gives_last(variables, at, name) && at < head.len() {
            assert forall|i: int| at < i < head.len() implies (#[trigger] head[i]).0@ != name by {
                assert(variables[i].0@ != name);
            }
            assert(gives_last(head, at, name));
        }
        if forall|i: int| 0 <= i < variables.len() ==> (#[trigger] variables[i]).0@ != name {
            assert forall|i: int| 0 <= i < head.len() implies (#[trigger] head[i]).0@ != name by {
                assert(variables[i].0@ != name);
            }
        }
    }
}

/// The changes of a request are exactly those that it lists.
pub proof fn law_requested_changes_are_those_listed(
    overrides: Option<Vec<(String, Option<String>)>>,
)
    ensures
        overrides matches Some(list) ==> requested(overrides) == list@,
        overrides is None ==> requested(overrides).len() == 0,
{
}

/// A variable has the value of the last change to it, and is gone where that change
/// removes it, however often it is changed.
pub proof fn law_the_last_change_counts(
    env: EnvironmentView,
    overrides: Seq<(String, Option<String>)>,
    name: Seq<char>,
    last: (String, Option<String>),
)
    ensures
        last.0@ == name ==> {
            &&& last.1 matches Some(text) ==> overridden(env, overrides.push(last)).contains_key(
                name,
            ) && overridden(env, overrides.push(last))[name] == text@
            &&& last.1 is None ==> !overridden(env, overrides.push(last)).contains_key(name)
        },
        last.0@ != name ==> {
            &&& overridden(env, overrides.push(last)).contains_key(name) <==> overridden(
                env,
                overrides,
            ).contains_key(name)
            &&& overridden(env, overrides).contains_key(name) ==> overridden(
                env,
                overrides.push(last),
            )[name] == overridden(env, overrides)[name]
        },
        overridden(env, Seq::empty()) == env,
{
    assert(overrides.push(last).drop_last() =~= overrides);
}

} // verus!
