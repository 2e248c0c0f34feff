//! The structured description of a plugin: its metadata and its ABI.
use vstd::prelude::*;

verus! {

/// How the raw value returned by an exported function is to be read.
#[derive(Clone, Copy, Debug, PartialEq, Eq, Structural, Default)]
pub enum PluginAbiParamType {
    /// The value is a byte offset of a zero-terminated UTF-8 string in linear memory.
    String,
    /// The value is a number, rendered in decimal.
    #[default]
    Number,
}

/// Declared shape of an exported function's result.
#[derive(Clone, Copy, Debug, PartialEq, Eq, Structural, Default)]
pub struct PluginAbiResult {
    pub ty: PluginAbiParamType,
}

/// One exported function as the plugin's ABI declares it.
#[derive(Clone, Debug, Default)]
pub struct PluginAbiFunction {
    pub name: String,
    pub result: PluginAbiResult,
}

/// The ABI of a plugin: its declared functions.
#[derive(Clone, Debug, Default)]
pub struct PluginAbi {
    pub functions: Vec<PluginAbiFunction>,
}

/// A plugin's configuration: its metadata and its ABI.
#[derive(Clone, Debug, Default)]
pub struct PluginConfig<T> {
    pub metadata: T,
    pub abi: PluginAbi,
}

/// A declared function as a name and a result kind.
pub type AbiEntry = (Seq<char>, PluginAbiParamType);

impl View for PluginAbiFunction {
    type V = AbiEntry;

    open spec fn view(&self) -> AbiEntry {
        (self.name@, self.result.ty)
    }
}

impl View for PluginAbi {
    type V = Seq<AbiEntry>;

    open spec fn view(&self) -> Seq<AbiEntry> {
        self.functions@.map_values(|f: PluginAbiFunction| f@)
    }
}

/// No two declared functions share a name.
pub open spec fn unique_names(fs: Seq<AbiEntry>) -> bool {
    forall|i: int, j: int| 0 <= i < j < fs.len() ==> #[trigger] fs[i].0 != #[trigger] fs[j].0
}

/// The result kind of the first declared function called `name`, if any.
pub open spec fn abi_kind(fs: Seq<AbiEntry>, name: Seq<char>) -> Option<PluginAbiParamType>
    decreases fs.len(),
{
    if fs.len() == 0 {
        None
    } else if fs[0].0 == name {
        Some(fs[0].1)
    } else {
        abi_kind(fs.drop_first(), name)
    }
}

proof fn lemma_abi_kind_step(fs: Seq<AbiEntry>, i: int, name: Seq<char>)
    requires
        0 <= i < fs.len(),
    ensures
        abi_kind(fs.subrange(i, fs.len() as int), name) == (if fs[i].0 == name {
            Some(fs[i].1)
        } else {
            abi_kind(fs.subrange(i + 1, fs.len() as int), name)
        }),
{
    let s = fs.subrange(i, fs.len() as int);
    assert(s.drop_first() =~= fs.subrange(i + 1, fs.len() as int));
}

impl PluginAbi {
    /// The kind of the declared function named `name`.
    pub fn kind_of(&self, name: &String) -> (r: Option<PluginAbiParamType>)
        ensures
            r == abi_kind(self@, name@),
    {
        let n = self.functions.len();
        let mut i: usize = 0;
        assert(self@.subrange(0, n as int) =~= self@);
        while i < n
            invariant
                n == self.functions@.len(),
                n == self@.len(),
                0 <= i <= n,
                abi_kind(self@, name@) == abi_kind(self@.subrange(i as int, n as int), name@),
            decreases n - i,
        {
            proof {
                lemma_abi_kind_step(self@, i as int, name@);
            }
            assert(self@[i as int] == self.functions@[i as int]@);
            if self.functions[i].name == *name {
                return Some(self.functions[i].result.ty);
            }
            i = i + 1;
        }
        assert(self@.subrange(n as int, n as int).len() == 0);
        None
    }

    /// Whether the declared function names are pairwise distinct.
    pub fn has_unique_names(&self) -> (r: bool)
        ensures
            r == unique_names(self@),
    {
        let n = self.functions.len();
        let mut i: usize = 0;
        while i < n
            invariant
                n == self.functions@.len(),
                n == self@.len(),
                0 <= i <= n,
                forall|a: int, b: int| 0 <= a < b < n && a < i ==> #[trigger] self@[a].0 != #[trigger] self@[b].0,
            decreases n - i,
        {
            let mut j: usize = i + 1;
            while j < n
                invariant
                    n == self.functions@.len(),
                    n == self@.len(),
                    0 <= i < n,
                    i + 1 <= j <= n,
                    forall|a: int, b: int| 0 <= a < b < n && a < i ==> #[trigger] self@[a].0 != #[trigger] self@[b].0,
                    forall|b: int| i < b < j ==> self@[i as int].0 != #[trigger] self@[b].0,
                decreases n - j,
            {
                assert(self@[i as int] == self.functions@[i as int]@);
                assert(self@[j as int] == self.functions@[j as int]@);
                if self.functions[i].name == self.functions[j].name {
                    assert(self@[i as int].0 == self@[j as int].0);
                    return false;
                }
                j = j + 1;
            }
            i = i + 1;
        }
        true
    }
}

} // verus!
