//! The plugin system: a registry of named plugins, looked up and run by
//! name. The registry keys are unique; registering a plugin under an
//! existing name replaces the earlier one.

use vstd::prelude::*;
use vstd::string::*;

verus! {

/// Why a plugin operation failed.
#[derive(Clone, Copy, Debug, PartialEq, Eq, Structural)]
pub enum PluginError {
    NotFound,
    Failed,
}

/// One plugin. Every plugin reports a fixed name, which the registry
/// uses as its key.
pub trait Plugin {
    /// The plugin's name, as the registry sees it.
    spec fn spec_name(&self) -> Seq<char>;

    /// The plugin's name.
    fn name(&self) -> (r: &str)
        ensures
            r@ == self.spec_name(),
    ;

    /// The plugin's version string.
    fn version(&self) -> &str;

    /// Prepares the plugin for use.
    fn init(&mut self) -> Result<(), PluginError>;

    /// Runs the plugin on the given arguments, yielding its output.
    fn execute(&self, args: &[String]) -> Result<String, PluginError>;

    /// Releases the plugin's resources.
    fn cleanup(&mut self) -> Result<(), PluginError>;
}

/// A plugin in a box behaves as the plugin it holds.
impl<P: Plugin> Plugin for Box<P> {
    open spec fn spec_name(&self) -> Seq<char> {
        (**self).spec_name()
    }

    fn name(&self) -> (r: &str) {
        (**self).name()
    }

    fn version(&self) -> &str {
        (**self).version()
    }

    fn init(&mut self) -> Result<(), PluginError> {
        (**self).init()
    }

    fn execute(&self, args: &[String]) -> Result<String, PluginError> {
        (**self).execute(args)
    }

    fn cleanup(&mut self) -> Result<(), PluginError> {
        (**self).cleanup()
    }
}

/// A registry of plugins, keyed by their names; the names are unique.
pub struct PluginRegistry<P: Plugin> {
    pub plugins: Vec<(String, P)>,
}

impl<P: Plugin> PluginRegistry<P> {
    /// The registered names, in registration order.
    pub open spec fn names(self) -> Seq<Seq<char>> {
        self.plugins@.map_values(|e: (String, P)| e.0@)
    }

    /// The registry's keys are unique.
    pub open spec fn inv(self) -> bool {
        forall|i: int, j: int|
            0 <= i < j < self.plugins@.len() ==> self.plugins@[i].0@ != self.plugins@[j].0@
    }

    /// Some plugin is registered under this name.
    pub open spec fn has_name(self, name: Seq<char>) -> bool {
        exists|i: int| 0 <= i < self.plugins@.len() && self.plugins@[i].0@ == name
    }

    /// The plugin registered under this name, if any.
    pub open spec fn spec_get(self, name: Seq<char>) -> Option<P> {
        if self.has_name(name) {
            let i = choose|i: int|
                0 <= i < self.plugins@.len() && self.plugins@[i].0@ == name;
            Some(self.plugins@[i].1)
        } else {
            None
        }
    }

    /// With unique keys, any registered name determines its entry's
    /// index, so `spec_get` returns exactly that entry's plugin.
    proof fn lemma_get_at(self, k: int)
        requires
            self.inv(),
            0 <= k < self.plugins@.len(),
        ensures
            self.spec_get(self.plugins@[k].0@) == Some(self.plugins@[k].1),
    {
        let name = self.plugins@[k].0@;
        assert(self.has_name(name));
        let i = choose|i: int| 0 <= i < self.plugins@.len() && self.plugins@[i].0@ == name;
        if i != k {
            if i < k {
                assert(self.plugins@[i].0@ != self.plugins@[k].0@);
            } else {
                assert(self.plugins@[k].0@ != self.plugins@[i].0@);
            }
        }
    }

    /// The empty registry.
    pub fn new() -> (r: PluginRegistry<P>)
        ensures
            r.inv(),
            r.plugins@.len() == 0,
    {
        PluginRegistry { plugins: Vec::new() }
    }

    /// Registers a plugin under its own name: a plugin already
    /// registered under that name is replaced, every other entry is
    /// untouched. Registration always succeeds.
    pub fn register(&mut self, plugin: P) -> (r: Result<(), PluginError>)
        requires
            old(self).inv(),
        ensures
            final(self).inv(),
            r is Ok,
            final(self).spec_get(plugin.spec_name()) == Some(plugin),
            forall|n: Seq<char>|
                n != plugin.spec_name() ==> final(self).spec_get(n) == old(self).spec_get(n),
    {
        let name: String = plugin.name().to_owned();
        let ghost gname = name@;
        let mut i: usize = 0;
        while i < self.plugins.len()
            invariant
                old(self).inv(),
                self.plugins == old(self).plugins,
                gname == plugin.spec_name(),
                name@ == gname,
                i <= self.plugins@.len(),
                forall|k: int| 0 <= k < i ==> self.plugins@[k].0@ != gname,
            decreases self.plugins@.len() - i,
        {
            if self.plugins[i].0 == name {
                self.plugins[i] = (name, plugin);
                proof {
                    assert(self.names() =~= old(self).names());
                    self.lemma_get_at(i as int);
                    assert forall|n: Seq<char>| n != gname implies final(self).spec_get(n) == old(
                        self,
                    ).spec_get(n) by {
                        lemma_same_names_get(*old(self), *self, n, i as int);
                    }
                }
                return Ok(());
            }
            i = i + 1;
        }
        self.plugins.push((name, plugin));
        proof {
            assert(forall|k: int|
                0 <= k < old(self).plugins@.len() ==> self.plugins@[k] == old(self).plugins@[k]);
            assert(self.inv());
            self.lemma_get_at(self.plugins@.len() - 1);
            assert forall|n: Seq<char>| n != gname implies final(self).spec_get(n) == old(
                self,
            ).spec_get(n) by {
                lemma_push_names_get(*old(self), *self, n);
            }
        }
        Ok(())
    }

    /// Looks up a plugin by name.
    pub fn get(&self, name: &str) -> (r: Option<&P>)
        requires
            self.inv(),
        ensures
            r matches Some(p) ==> self.spec_get(name@) == Some(*p),
            r is None ==> !self.has_name(name@),
    {
        let mut i: usize = 0;
        while i < self.plugins.len()
            invariant
                self.inv(),
                i <= self.plugins@.len(),
                forall|k: int| 0 <= k < i ==> self.plugins@[k].0@ != name@,
            decreases self.plugins@.len() - i,
        {
            if crate::search::str_eq(self.plugins[i].0.as_str(), name) {
                proof {
                    self.lemma_get_at(i as int);
                }
                return Some(&self.plugins[i].1);
            }
            i = i + 1;
        }
        None
    }

    /// The registered names, in registration order.
    pub fn list(&self) -> (r: Vec<&str>)
        ensures
            r@.len() == self.plugins@.len(),
            forall|i: int| 0 <= i < r@.len() ==> r@[i]@ == self.plugins@[i].0@,
    {
        let mut out: Vec<&str> = Vec::new();
        let mut i: usize = 0;
        while i < self.plugins.len()
            invariant
                i <= self.plugins@.len(),
                out@.len() == i,
                forall|k: int| 0 <= k < i ==> out@[k]@ == self.plugins@[k].0@,
            decreases self.plugins@.len() - i,
        {
            out.push(self.plugins[i].0.as_str());
            i = i + 1;
        }
        out
    }

    /// Runs the plugin registered under `name` on the given arguments;
    /// an unregistered name is reported as not found, without running
    /// anything.
    pub fn execute(&self, name: &str, args: &[String]) -> (r: Result<String, PluginError>)
        requires
            self.inv(),
        ensures
            !self.has_name(name@) ==> r == Result::<String, PluginError>::Err(
                PluginError::NotFound,
            ),
    {
        match self.get(name) {
            Some(plugin) => plugin.execute(args),
            None => Err(PluginError::NotFound),
        }
    }
}

impl<P: Plugin> Default for PluginRegistry<P> {
    /// The default registry is empty.
    fn default() -> (r: PluginRegistry<P>)
        ensures
            r.inv(),
            r.plugins@.len() == 0,
    {
        PluginRegistry::new()
    }
}

/// Two registries whose entries agree everywhere except at index `at`,
/// where they carry the same name, yield the same plugin for every other
/// name.
proof fn lemma_same_names_get<P: Plugin>(
    a: PluginRegistry<P>,
    b: PluginRegistry<P>,
    n: Seq<char>,
    at: int,
)
    requires
        a.inv(),
        b.inv(),
        a.plugins@.len() == b.plugins@.len(),
        0 <= at < a.plugins@.len(),
        a.plugins@[at].0@ == b.plugins@[at].0@,
        forall|k: int| 0 <= k < a.plugins@.len() && k != at ==> a.plugins@[k] == b.plugins@[k],
        n != a.plugins@[at].0@,
    ensures
        a.spec_get(n) == b.spec_get(n),
{
    assert(forall|k: int|
        0 <= k < a.plugins@.len() ==> a.plugins@[k].0@ == b.plugins@[k].0@);
    if a.has_name(n) {
        let i = choose|i: int| 0 <= i < a.plugins@.len() && a.plugins@[i].0@ == n;
        assert(b.has_name(n));
        let j = choose|j: int| 0 <= j < b.plugins@.len() && b.plugins@[j].0@ == n;
        assert(a.plugins@[j].0@ == n);
        if i != j {
            if i < j {
                assert(a.plugins@[i].0@ != a.plugins@[j].0@);
            } else {
                assert(a.plugins@[j].0@ != a.plugins@[i].0@);
            }
        }
        assert(i != at);
    } else {
        assert(!b.has_name(n));
    }
}

/// Extending a registry by one entry leaves the lookup of every other
/// name unchanged.
proof fn lemma_push_names_get<P: Plugin>(a: PluginRegistry<P>, b: PluginRegistry<P>, n: Seq<char>)
    requires
        a.inv(),
        b.inv(),
        b.plugins@.len() == a.plugins@.len() + 1,
        forall|k: int| 0 <= k < a.plugins@.len() ==> a.plugins@[k] == b.plugins@[k],
        n != b.plugins@[b.plugins@.len() - 1].0@,
    ensures
        a.spec_get(n) == b.spec_get(n),
{
    if a.has_name(n) {
        let i = choose|i: int| 0 <= i < a.plugins@.len() && a.plugins@[i].0@ == n;
        assert(b.plugins@[i].0@ == n);
        assert(b.has_name(n));
        let j = choose|j: int| 0 <= j < b.plugins@.len() && b.plugins@[j].0@ == n;
        if i != j {
            if i < j {
                assert(b.plugins@[i].0@ != b.plugins@[j].0@);
            } else {
                assert(b.plugins@[j].0@ != b.plugins@[i].0@);
            }
        }
    } else {
        if b.has_name(n) {
            let j = choose|j: int| 0 <= j < b.plugins@.len() && b.plugins@[j].0@ == n;
            assert(j == b.plugins@.len() - 1);
        }
    }
}

/// The arguments joined with commas: the payload of the example
/// plugin's output.
pub open spec fn args_joined(s: Seq<String>, n: int) -> Seq<char>
    decreases n,
{
    if n <= 0 {
        Seq::empty()
    } else if n == 1 {
        s[0]@
    } else {
        args_joined(s, n - 1) + ", "@ + s[n - 1]@
    }
}

/// Joins the arguments with `", "`.
fn join_args(args: &[String]) -> (r: String)
    ensures
        r@ == args_joined(args@, args@.len() as int),
{
    let mut s = String::new();
    let n = args.len();
    let mut i: usize = 0;
    while i < n
        invariant
            n == args@.len(),
            i <= n,
            s@ == args_joined(args@, i as int),
        decreases n - i,
    {
        if i > 0 {
            s.append(", ");
            proof {
                reveal_strlit(", ");
            }
        }
        s.append(args[i].as_str());
        proof {
            if i == 0 {
                assert(s@ =~= args_joined(args@, 1));
            }
        }
        i = i + 1;
    }
    s
}

/// The built-in example plugin: echoes its arguments.
pub struct ExamplePlugin;

impl Plugin for ExamplePlugin {
    open spec fn spec_name(&self) -> Seq<char> {
        "example"@
    }

    fn name(&self) -> (r: &str) {
        "example"
    }

    fn version(&self) -> &str {
        "0.1.0"
    }

    fn init(&mut self) -> Result<(), PluginError> {
        Ok(())
    }

    fn execute(&self, args: &[String]) -> Result<String, PluginError> {
        let mut s = String::from_str("Example plugin executed with args: ");
        let joined = join_args(args);
        s.append(joined.as_str());
        Ok(s)
    }

    fn cleanup(&mut self) -> Result<(), PluginError> {
        Ok(())
    }
}

} // verus!
