use super::tokens::{Variable, VariableView};
use vstd::prelude::*;

verus! {

/// The map that a list of variables stands for: each identifier bound to
/// the value of the last variable that bears it.
pub open spec fn bindings(variables: Seq<VariableView>) -> Map<Seq<char>, Seq<char>>
    decreases variables.len(),
{
    if variables.len() == 0 {
        Map::empty()
    } else {
        bindings(variables.drop_last()).insert(
            variables.last().identifier,
            variables.last().value,
        )
    }
}

/// No identifier occurs twice.
pub open spec fn distinct(variables: Seq<VariableView>) -> bool {
    forall|i: int, j: int|
        0 <= i < j < variables.len() ==> variables[i].identifier != variables[j].identifier
}

/// The views of a sequence of variables, in the same order.
pub open spec fn variable_views(variables: Seq<Variable>) -> Seq<VariableView> {
    variables.map_values(|variable: Variable| variable@)
}

/// The identifiers that `bindings` binds are those of the variables.
pub proof fn lemma_bindings_domain(variables: Seq<VariableView>, identifier: Seq<char>)
    ensures
        bindings(variables).contains_key(identifier) <==> exists|i: int|
            0 <= i < variables.len() && #[trigger] variables[i].identifier == identifier,
    decreases variables.len(),
{
    if variables.len() > 0 {
        let front = variables.drop_last();
        lemma_bindings_domain(front, identifier);
        if bindings(variables).contains_key(identifier) {
            if variables.last().identifier == identifier {
                assert(variables[variables.len() - 1].identifier == identifier);
            } else {
                let i = choose|i: int|
                    0 <= i < front.len() && #[trigger] front[i].identifier == identifier;
                assert(variables[i].identifier == identifier);
            }
        }
        if exists|i: int|
            0 <= i < variables.len() && #[trigger] variables[i].identifier == identifier {
            let i = choose|i: int|
                0 <= i < variables.len() && #[trigger] variables[i].identifier == identifier;
            if i < front.len() {
                assert(front[i].identifier == identifier);
            }
        }
    }
}

/// Where no identifier occurs twice, each variable's identifier is bound to
/// its value.
pub proof fn lemma_bindings_value(variables: Seq<VariableView>, i: int)
    requires
        distinct(variables),
        0 <= i < variables.len(),
    ensures
        bindings(variables).contains_key(variables[i].identifier),
        bindings(variables)[variables[i].identifier] == variables[i].value,
    decreases variables.len(),
{
    let front = variables.drop_last();
    if i < front.len() {
        assert(distinct(front)) by {
            assert forall|a: int, b: int| 0 <= a < b < front.len() implies front[a].identifier
                != front[b].identifier by {
                assert(front[a] == variables[a] && front[b] == variables[b]);
            }
        }
        lemma_bindings_value(front, i);
        assert(front[i] == variables[i]);
        assert(variables[i].identifier != variables[variables.len() - 1].identifier);
    }
}

/// Taking one variable out of a list without repeated identifiers unbinds
/// its identifier and nothing else.
pub proof fn lemma_bindings_remove(variables: Seq<VariableView>, i: int)
    requires
        distinct(variables),
        0 <= i < variables.len(),
    ensures
        distinct(variables.remove(i)),
        bindings(variables.remove(i)) == bindings(variables).remove(variables[i].identifier),
{
    let fewer = variables.remove(i);
    let gone = variables[i].identifier;
    assert forall|a: int, b: int| 0 <= a < b < fewer.len() implies fewer[a].identifier
        != fewer[b].identifier by {
        let a0 = if a < i { a } else { a + 1 };
        let b0 = if b < i { b } else { b + 1 };
        assert(fewer[a] == variables[a0] && fewer[b] == variables[b0]);
    }
    let left = bindings(fewer);
    let right = bindings(variables).remove(gone);
    assert forall|k: Seq<char>| left.contains_key(k) <==> right.contains_key(k) by {
        lemma_bindings_domain(fewer, k);
        lemma_bindings_domain(variables, k);
        if left.contains_key(k) {
            let a = choose|a: int| 0 <= a < fewer.len() && #[trigger] fewer[a].identifier == k;
            let a0 = if a < i { a } else { a + 1 };
            assert(fewer[a] == variables[a0]);
            assert(variables[a0].identifier == k);
            assert(k != gone) by {
                if a0 < i {
                    assert(variables[a0].identifier != variables[i].identifier);
                } else {
                    assert(variables[i].identifier != variables[a0].identifier);
                }
            }
        }
        if right.contains_key(k) {
            let a0 = choose|a: int|
                0 <= a < variables.len() && #[trigger] variables[a].identifier == k;
            let a = if a0 < i { a0 } else { a0 - 1 };
            assert(fewer[a] == variables[a0]);
            assert(fewer[a].identifier == k);
        }
    }
    assert forall|k: Seq<char>| left.contains_key(k) implies left[k] == right[k] by {
        lemma_bindings_domain(fewer, k);
        let a = choose|a: int| 0 <= a < fewer.len() && #[trigger] fewer[a].identifier == k;
        let a0 = if a < i { a } else { a + 1 };
        assert(fewer[a] == variables[a0]);
        lemma_bindings_value(fewer, a);
        lemma_bindings_value(variables, a0);
    }
    assert(left =~= right);
}

/// The variables that a job sees: a map from identifiers to values, kept
/// as a list in which no identifier occurs twice.
#[derive(Debug)]
pub struct Environment {
    variables: Vec<Variable>,
}

impl View for Environment {
    type V = Map<Seq<char>, Seq<char>>;

    closed spec fn view(&self) -> Map<Seq<char>, Seq<char>> {
        bindings(variable_views(self.variables@))
    }
}

impl Clone for Environment {
    fn clone(&self) -> (copy: Self)
        ensures
            copy@ == self@,
    {
        let mut copy = Environment::new();
        copy.extend(self);
        proof {
            assert(Map::<Seq<char>, Seq<char>>::empty().union_prefer_right(self@) =~= self@);
        }
        copy
    }
}

impl Environment {
    #[verifier::type_invariant]
    spec fn no_identifier_twice(&self) -> bool {
        distinct(variable_views(self.variables@))
    }

    /// An environment without variables.
    pub fn new() -> (env: Self)
        ensures
            env@ == Map::<Seq<char>, Seq<char>>::empty(),
    {
        Environment { variables: Vec::new() }
    }

    /// The place of `identifier` in the list, if it is bound.
    fn position(&self, identifier: &str) -> (at: Option<usize>)
        ensures
            at is Some <==> self@.contains_key(identifier@),
            at is Some ==> at->0 < self.variables@.len() && self.variables@[at->0 as int]@.identifier
                == identifier@,
    {
        let wanted = identifier.to_owned();
        let mut i: usize = 0;
        while i < self.variables.len()
            invariant
                wanted@ == identifier@,
                i <= self.variables@.len(),
                forall|j: int| 0 <= j < i ==> self.variables@[j]@.identifier != identifier@,
            decreases self.variables@.len() - i,
        {
            if self.variables[i].identifier == wanted {
                proof {
                    lemma_bindings_domain(variable_views(self.variables@), identifier@);
                    assert(variable_views(self.variables@)[i as int].identifier == identifier@);
                }
                return Some(i);
            }
            i += 1;
        }
        proof {
            lemma_bindings_domain(variable_views(self.variables@), identifier@);
        }
        None
    }

    /// Whether `identifier` is bound.
    pub fn contains_key(&self, identifier: &str) -> (yes: bool)
        ensures
            yes == self@.contains_key(identifier@),
    {
        self.position(identifier).is_some()
    }

    /// The value that `identifier` is bound to.
    pub fn get(&self, identifier: &str) -> (value: Option<&String>)
        ensures
            value is Some <==> self@.contains_key(identifier@),
            value is Some ==> value->0@ == self@[identifier@],
    {
        match self.position(identifier) {
            Some(at) => {
                proof {
                    use_type_invariant(self);
                    lemma_bindings_value(variable_views(self.variables@), at as int);
                }
                Some(&self.variables[at].value)
            },
            None => None,
        }
    }

    /// Unbinds `identifier` and returns the value that it was bound to.
    pub fn remove(&mut self, identifier: &str) -> (value: Option<String>)
        ensures
            final(self)@ == old(self)@.remove(identifier@),
            value is Some <==> old(self)@.contains_key(identifier@),
            value is Some ==> value->0@ == old(self)@[identifier@],
    {
        match self.position(identifier) {
            Some(at) => {
                proof {
                    use_type_invariant(&*self);
                    lemma_bindings_value(variable_views(self.variables@), at as int);
                    lemma_bindings_remove(variable_views(self.variables@), at as int);
                    assert(variable_views(self.variables@.remove(at as int)) =~= variable_views(self.variables@).remove(
                        at as int,
                    ));
                }
                let mut variables: Vec<Variable> = Vec::new();
                std::mem::swap(&mut variables, &mut self.variables);
                let variable = variables.remove(at);
                self.variables = variables;
                Some(variable.value)
            },
            None => {
                proof {
                    assert(self@.remove(identifier@) =~= self@);
                }
                None
            },
        }
    }

    /// Binds `identifier` to `value`, whatever it was bound to before.
    pub fn insert(&mut self, identifier: String, value: String)
        ensures
            final(self)@ == old(self)@.insert(identifier@, value@),
    {
        self.remove(identifier.as_str());
        let ghost before = variable_views(self.variables@);
        proof {
            use_type_invariant(&*self);
            lemma_bindings_domain(before, identifier@);
            assert(old(self)@.remove(identifier@).insert(identifier@, value@) =~= old(self)@.insert(
                identifier@,
                value@,
            ));
        }
        let variable = Variable { identifier, value };
        let mut variables: Vec<Variable> = Vec::new();
        std::mem::swap(&mut variables, &mut self.variables);
        variables.push(variable);
        proof {
            let after = variable_views(variables@);
            assert(after =~= before.push(variable@));
            assert(after.drop_last() =~= before);
            assert forall|i: int, j: int| 0 <= i < j < after.len() implies after[i].identifier
                != after[j].identifier by {
                assert(after[i] == before[i]);
                if j < before.len() {
                    assert(after[j] == before[j]);
                } else {
                    assert(before[i].identifier != identifier@);
                }
            }
        }
        self.variables = variables;
    }

    /// Binds all that `other` binds, whatever it was bound to before.
    pub fn extend(&mut self, other: &Environment)
        ensures
            final(self)@ == old(self)@.union_prefer_right(other@),
    {
        let more = other.variables();
        let ghost added = variable_views(more@);
        let mut i: usize = 0;
        proof {
            assert(added.take(0) =~= Seq::<VariableView>::empty());
            assert(self@ =~= old(self)@.union_prefer_right(bindings(added.take(0))));
        }
        while i < more.len()
            invariant
                i <= more@.len(),
                added == variable_views(more@),
                self@ == old(self)@.union_prefer_right(bindings(added.take(i as int))),
            decreases more@.len() - i,
        {
            let ghost before = bindings(added.take(i as int));
            proof {
                assert(added.take(i + 1).drop_last() =~= added.take(i as int));
                assert(added.take(i + 1).last() == more@[i as int]@);
            }
            self.insert(more[i].identifier.clone(), more[i].value.clone());
            proof {
                let variable = more@[i as int]@;
                assert(old(self)@.union_prefer_right(before).insert(
                    variable.identifier,
                    variable.value,
                ) =~= old(self)@.union_prefer_right(
                    before.insert(variable.identifier, variable.value),
                ));
            }
            i += 1;
        }
        proof {
            assert(added.take(i as int) =~= added);
        }
    }

    /// The variables, each identifier once, in no order that matters.
    pub fn variables(&self) -> (list: &Vec<Variable>)
        ensures
            distinct(variable_views(list@)),
            bindings(variable_views(list@)) == self@,
    {
        proof {
            use_type_invariant(self);
        }
        &self.variables
    }
}

} // verus!
