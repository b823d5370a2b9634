//! The scoped environment of one hook invocation.
//!
//! A hook runs with the hooks directory in front of the search path and with a
//! few extra variables. Both changes live for one invocation only. The type
//! [`ScopedEnvironment`] records what one invocation changes; the operations
//! that install the scope and the operations that release it are computed here,
//! and carried out by whoever owns the process environment.

use vstd::prelude::*;

verus! {

/// A process environment as a mathematical map from variable names to values.
pub type Environment = Map<Seq<char>, Seq<char>>;

/// The name of the variable that holds the search path.
pub open spec fn search_path_key() -> Seq<char> {
    "PATH"@
}

/// The hooks directory that belongs to a configuration directory.
pub open spec fn hooks_directory_of(config_dir: Seq<char>) -> Seq<char> {
    config_dir + "/hooks"@
}

/// The search path with the hooks directory in front of it.
pub open spec fn augmented(hooks_dir: Seq<char>, original_path: Seq<char>) -> Seq<char> {
    hooks_dir + ":"@ + original_path
}

/// One change to the process environment.
#[derive(Debug, PartialEq, Eq)]
pub enum EnvOp {
    /// Give the variable `key` the value `value`.
    Assign { key: String, value: String },
    /// Remove the variable `key`.
    Unset { key: String },
}

/// The mathematical value of an [`EnvOp`].
pub enum EnvOpView {
    Assign { key: Seq<char>, value: Seq<char> },
    Unset { key: Seq<char> },
}

impl View for EnvOp {
    type V = EnvOpView;

    open spec fn view(&self) -> EnvOpView {
        match *self {
            EnvOp::Assign { key, value } => EnvOpView::Assign { key: key@, value: value@ },
            EnvOp::Unset { key } => EnvOpView::Unset { key: key@ },
        }
    }
}

impl DeepView for EnvOp {
    type V = EnvOpView;

    open spec fn deep_view(&self) -> EnvOpView {
        self@
    }
}

impl EnvOpView {
    /// The variable that the operation touches.
    pub open spec fn key(self) -> Seq<char> {
        match self {
            EnvOpView::Assign { key, .. } => key,
            EnvOpView::Unset { key } => key,
        }
    }
}

/// The environment after one operation.
pub open spec fn apply(env: Environment, op: EnvOpView) -> Environment {
    match op {
        EnvOpView::Assign { key, value } => env.insert(key, value),
        EnvOpView::Unset { key } => env.remove(key),
    }
}

/// The environment after a sequence of operations, carried out in order.
pub open spec fn apply_all(env: Environment, ops: Seq<EnvOpView>) -> Environment
    decreases ops.len(),
{
    if ops.len() == 0 {
        env
    } else {
        apply(apply_all(env, ops.drop_last()), ops.last())
    }
}

/// The operation that installs one binding.
pub open spec fn set_binding(binding: (Seq<char>, Seq<char>)) -> EnvOpView {
    EnvOpView::Assign { key: binding.0, value: binding.1 }
}

/// The operation that removes one binding.
pub open spec fn remove_binding(binding: (Seq<char>, Seq<char>)) -> EnvOpView {
    EnvOpView::Unset { key: binding.0 }
}

/// The operations that install the bindings, in order.
pub open spec fn set_bindings(bindings: Seq<(Seq<char>, Seq<char>)>) -> Seq<EnvOpView> {
    Seq::new(bindings.len(), |i: int| set_binding(bindings[i]))
}

/// The operations that remove the bindings' keys, in order.
pub open spec fn remove_bindings(bindings: Seq<(Seq<char>, Seq<char>)>) -> Seq<EnvOpView> {
    Seq::new(bindings.len(), |i: int| remove_binding(bindings[i]))
}

/// What one invocation changes in the environment.
#[derive(Debug, PartialEq, Eq)]
pub struct ScopedEnvironment {
    /// The directory that holds the hooks.
    pub hooks_dir: String,
    /// The search path as it was before the invocation.
    pub original_path: String,
    /// The extra variables, in the order in which they are installed.
    pub bindings: Vec<(String, String)>,
}

/// The mathematical value of a [`ScopedEnvironment`].
pub struct ScopeView {
    pub hooks_dir: Seq<char>,
    pub original_path: Seq<char>,
    pub bindings: Seq<(Seq<char>, Seq<char>)>,
}

impl View for ScopedEnvironment {
    type V = ScopeView;

    open spec fn view(&self) -> ScopeView {
        ScopeView {
            hooks_dir: self.hooks_dir@,
            original_path: self.original_path@,
            bindings: self.bindings.deep_view(),
        }
    }
}

impl ScopeView {
    /// The search path that is in force while the scope is installed.
    pub open spec fn augmented_path(self) -> Seq<char> {
        augmented(self.hooks_dir, self.original_path)
    }

    /// The operations that install the scope: the augmented search path first,
    /// then each binding in order.
    pub open spec fn install_ops(self) -> Seq<EnvOpView> {
        seq![EnvOpView::Assign { key: search_path_key(), value: self.augmented_path() }]
            + set_bindings(self.bindings)
    }

    /// The operations that release the scope: each binding's key is removed,
    /// then the original search path is put back.
    pub open spec fn release_ops(self) -> Seq<EnvOpView> {
        remove_bindings(self.bindings) + seq![
            EnvOpView::Assign { key: search_path_key(), value: self.original_path },
        ]
    }

    /// `key` is the search path variable or the key of one of the bindings.
    pub open spec fn owns(self, key: Seq<char>) -> bool {
        key == search_path_key() || exists|i: int|
            0 <= i < self.bindings.len() && #[trigger] self.bindings[i].0 == key
    }

    /// No binding names the search path.
    pub open spec fn keeps_search_path(self) -> bool {
        forall|i: int|
            0 <= i < self.bindings.len() ==> (#[trigger] self.bindings[i]).0 != search_path_key()
    }

    /// The binding at `i` is the last one with its key.
    pub open spec fn last_of_its_key(self, i: int) -> bool {
        &&& 0 <= i < self.bindings.len()
        &&& forall|j: int|
            i < j < self.bindings.len() ==> (#[trigger] self.bindings[j]).0 != self.bindings[i].0
    }

    /// The scope was captured from `env`, and releasing it cannot lose a
    /// variable of `env`: the search path of `env` is the scope's original
    /// path, and no binding names a variable that `env` already has, other
    /// than the search path itself.
    pub open spec fn captured_from(self, env: Environment) -> bool {
        &&& env.contains_key(search_path_key())
        &&& env[search_path_key()] == self.original_path
        &&& forall|i: int|
            0 <= i < self.bindings.len() ==> #[trigger] self.bindings[i].0 == search_path_key()
                || !env.contains_key(self.bindings[i].0)
    }
}

impl ScopedEnvironment {
    /// Records the scope of one invocation: the search path that was read from
    /// the environment, the hooks directory to put in front of it, and the
    /// bindings to install.
    pub fn acquire(
        original_path: String,
        hooks_dir: String,
        bindings: Vec<(String, String)>,
    ) -> (scope: ScopedEnvironment)
        ensures
            scope@ == (ScopeView {
                hooks_dir: hooks_dir@,
                original_path: original_path@,
                bindings: bindings.deep_view(),
            }),
    {
        ScopedEnvironment { hooks_dir, original_path, bindings }
    }

    /// The search path that is in force while the scope is installed.
    pub fn augmented_path(&self) -> (path: String)
        ensures
            path@ == self@.augmented_path(),
    {
        let mut path = self.hooks_dir.clone();
        path.append(":");
        path.append(self.original_path.as_str());
        path
    }

    /// The operations that install the scope, in the order in which they are
    /// to be carried out.
    pub fn install_ops(&self) -> (ops: Vec<EnvOp>)
        ensures
            ops.deep_view() == self@.install_ops(),
    {
        let mut ops: Vec<EnvOp> = Vec::new();
        ops.push(EnvOp::Assign { key: "PATH".to_owned(), value: self.augmented_path() });
        let mut i: usize = 0;
        while i < self.bindings.len()
            invariant
                i <= self.bindings.len(),
                ops.len() == i + 1,
                ops[0]@ == self@.install_ops()[0],
                forall|j: int|
                    0 <= j < i ==> (#[trigger] ops[j + 1])@ == set_binding(self@.bindings[j]),
            decreases self.bindings.len() - i,
        {
            let binding = &self.bindings[i];
            ops.push(EnvOp::Assign { key: binding.0.clone(), value: binding.1.clone() });
            i = i + 1;
        }
        assert forall|k: int| 0 <= k < ops.len() implies #[trigger] ops.deep_view()[k]
            == self@.install_ops()[k] by {
            if k > 0 {
                assert(ops[(k - 1) + 1]@ == set_binding(self@.bindings[k - 1]));
            }
        }
        assert(ops.deep_view() =~= self@.install_ops());
        ops
    }

    /// The operations that release the scope, in the order in which they are
    /// to be carried out.
    pub fn release_ops(&self) -> (ops: Vec<EnvOp>)
        ensures
            ops.deep_view() == self@.release_ops(),
    {
        let mut ops: Vec<EnvOp> = Vec::new();
        let mut i: usize = 0;
        while i < self.bindings.len()
            invariant
                i <= self.bindings.len(),
                ops.len() == i,
                forall|j: int|
                    0 <= j < i ==> (#[trigger] ops[j])@ == remove_binding(self@.bindings[j]),
            decreases self.bindings.len() - i,
        {
            let binding = &self.bindings[i];
            ops.push(EnvOp::Unset { key: binding.0.clone() });
            i = i + 1;
        }
        ops.push(EnvOp::Assign { key: "PATH".to_owned(), value: self.original_path.clone() });
        assert(ops.deep_view() =~= self@.release_ops());
        ops
    }
}

/// Carrying out two sequences of operations one after the other is carrying
/// out their concatenation.
proof fn lemma_apply_all_concat(env: Environment, first: Seq<EnvOpView>, second: Seq<EnvOpView>)
    ensures
        apply_all(env, first + second) == apply_all(apply_all(env, first), second),
    decreases second.len(),
{
    if second.len() == 0 {
        assert(first + second =~= first);
    } else {
        lemma_apply_all_concat(env, first, second.drop_last());
        assert((first + second).drop_last() =~= first + second.drop_last());
    }
}

/// Once the bindings are installed, a binding's key holds the binding's
/// value, unless a later binding has the same key.
proof fn lemma_last_binding_wins(
    env: Environment,
    bindings: Seq<(Seq<char>, Seq<char>)>,
    i: int,
)
    requires
        0 <= i < bindings.len(),
        forall|j: int| i < j < bindings.len() ==> (#[trigger] bindings[j]).0 != bindings[i].0,
    ensures
        apply_all(env, set_bindings(bindings)).contains_key(bindings[i].0),
        apply_all(env, set_bindings(bindings))[bindings[i].0] == bindings[i].1,
    decreases bindings.len(),
{
    let front = bindings.drop_last();
    assert(set_bindings(bindings).drop_last() =~= set_bindings(front));
    if i < bindings.len() - 1 {
        assert(bindings[bindings.len() - 1].0 != bindings[i].0);
        assert forall|j: int| i < j < front.len() implies (#[trigger] front[j]).0
            != front[i].0 by {
            assert(bindings[j].0 != bindings[i].0);
        }
        lemma_last_binding_wins(env, front, i);
    }
}

/// Operations that do not touch a variable leave it as it was.
proof fn lemma_untouched(env: Environment, ops: Seq<EnvOpView>, key: Seq<char>)
    requires
        forall|i: int| 0 <= i < ops.len() ==> (#[trigger] ops[i]).key() != key,
    ensures
        apply_all(env, ops).contains_key(key) == env.contains_key(key),
        env.contains_key(key) ==> apply_all(env, ops)[key] == env[key],
    decreases ops.len(),
{
    if ops.len() > 0 {
        lemma_untouched(env, ops.drop_last(), key);
    }
}

/// Once the keys of all bindings are removed, none of them is left.
proof fn lemma_removed(env: Environment, bindings: Seq<(Seq<char>, Seq<char>)>, i: int)
    requires
        0 <= i < bindings.len(),
    ensures
        !apply_all(env, remove_bindings(bindings)).contains_key(bindings[i].0),
    decreases bindings.len(),
{
    let ops = remove_bindings(bindings);
    let front = bindings.drop_last();
    assert(ops.drop_last() =~= remove_bindings(front));
    if i < bindings.len() - 1 {
        lemma_removed(env, front, i);
    }
}

/// Installing a scope puts the hooks directory in front of the search path
/// and gives each binding's key its value.
///
/// With the scope installed, the search path is the augmented one, unless a
/// binding names the search path itself; each binding's key holds that
/// binding's value, unless a later binding has the same key; and every
/// variable that the scope does not own is as it was.
pub proof fn lemma_install_takes_effect(scope: ScopeView, env: Environment)
    ensures
        scope.keeps_search_path() ==> apply_all(env, scope.install_ops()).contains_key(
            search_path_key(),
        ) && apply_all(env, scope.install_ops())[search_path_key()] == scope.augmented_path(),
        forall|i: int| #[trigger]
            scope.last_of_its_key(i) ==> apply_all(env, scope.install_ops()).contains_key(
                scope.bindings[i].0,
            ) && apply_all(env, scope.install_ops())[scope.bindings[i].0] == scope.bindings[i].1,
        forall|key: Seq<char>|
            !scope.owns(key) ==> (#[trigger] apply_all(env, scope.install_ops()).contains_key(key))
                == env.contains_key(key) && (env.contains_key(key) ==> apply_all(
                env,
                scope.install_ops(),
            )[key] == env[key]),
{
    let first = seq![EnvOpView::Assign { key: search_path_key(), value: scope.augmented_path() }];
    let rest = set_bindings(scope.bindings);
    let started = apply_all(env, first);
    let during = apply_all(env, scope.install_ops());
    lemma_apply_all_concat(env, first, rest);
    assert(apply_all(env, first.drop_last()) == env);
    assert(started == env.insert(search_path_key(), scope.augmented_path()));
    if scope.keeps_search_path() {
        lemma_untouched(started, rest, search_path_key());
    }
    assert forall|i: int| #[trigger] scope.last_of_its_key(i) implies during.contains_key(
        scope.bindings[i].0,
    ) && during[scope.bindings[i].0] == scope.bindings[i].1 by {
        lemma_last_binding_wins(started, scope.bindings, i);
    }
    assert forall|key: Seq<char>| !scope.owns(key) implies (#[trigger] during.contains_key(key))
        == env.contains_key(key) && (env.contains_key(key) ==> during[key] == env[key]) by {
        lemma_untouched(started, rest, key);
    }
}

/// Releasing a scope undoes whatever was installed of it.
///
/// Let `env` be the environment from which the scope was captured, and let
/// `installed` be any operations on variables that the scope owns: all of the
/// install operations, some of them, or none. Then the release operations
/// bring the environment back to `env` exactly.
pub proof fn lemma_release_restores(
    scope: ScopeView,
    env: Environment,
    installed: Seq<EnvOpView>,
)
    requires
        scope.captured_from(env),
        forall|j: int| 0 <= j < installed.len() ==> scope.owns((#[trigger] installed[j]).key()),
    ensures
        apply_all(apply_all(env, installed), scope.release_ops()) == env,
{
    let during = apply_all(env, installed);
    let removals = remove_bindings(scope.bindings);
    let cleared = apply_all(during, removals);
    let after = apply_all(during, scope.release_ops());
    assert(scope.release_ops().drop_last() =~= removals);
    assert(after == cleared.insert(search_path_key(), scope.original_path));
    assert forall|key: Seq<char>| #[trigger]
        after.contains_key(key) == env.contains_key(key) && (env.contains_key(key) ==> after[key]
            == env[key]) by {
        if key == search_path_key() {
        } else if exists|i: int| 0 <= i < scope.bindings.len() && scope.bindings[i].0 == key {
            let i = choose|i: int| 0 <= i < scope.bindings.len() && scope.bindings[i].0 == key;
            lemma_removed(during, scope.bindings, i);
        } else {
            lemma_untouched(env, installed, key);
            lemma_untouched(during, removals, key);
        }
    }
    assert(after =~= env);
}

/// Releasing a scope leaves no variable under a binding's key, whatever the
/// environment held there; only the search path is put back.
pub proof fn lemma_release_removes_bindings(scope: ScopeView, env: Environment, i: int)
    requires
        0 <= i < scope.bindings.len(),
        scope.bindings[i].0 != search_path_key(),
    ensures
        !apply_all(env, scope.release_ops()).contains_key(scope.bindings[i].0),
{
    assert(scope.release_ops().drop_last() =~= remove_bindings(scope.bindings));
    lemma_removed(env, scope.bindings, i);
}

/// A scope of which only a part was installed is rolled back whole: after the
/// first `n` install operations, for any `n`, the release operations bring
/// the environment back to what it was.
pub proof fn lemma_partial_install_is_rolled_back(scope: ScopeView, env: Environment, n: int)
    requires
        scope.captured_from(env),
        0 <= n <= scope.install_ops().len(),
    ensures
        apply_all(apply_all(env, scope.install_ops().take(n)), scope.release_ops()) == env,
{
    let installed = scope.install_ops().take(n);
    assert forall|j: int| 0 <= j < installed.len() implies scope.owns(
        (#[trigger] installed[j]).key(),
    ) by {
        if j > 0 {
            assert(scope.bindings[j - 1].0 == installed[j].key());
        }
    }
    lemma_release_restores(scope, env, installed);
}

/// The hooks directory that belongs to a configuration directory.
pub fn hooks_directory(config_dir: &str) -> (dir: String)
    ensures
        dir@ == hooks_directory_of(config_dir@),
{
    let mut dir = config_dir.to_owned();
    dir.append("/hooks");
    dir
}

} // verus!
