use vstd::prelude::*;

verus! {

/// Codegen configuration.
pub struct CodegenConfig {
    /// 0, 1, 2 correspond to -O0, -Os, -Oz
    pub shrink_level: u32,
    /// 0, 1, 2 correspond to -O0, -O1, -O2, etc.
    pub optimization_level: u32,
    /// If set, the names section is emitted.
    pub debug_info: bool,
    /// Extra `name=value` arguments handed to the passes, in order.
    pub pass_argument: Vec<(String, String)>,
}

impl CodegenConfig {
    /// The pass arguments as pairs of character sequences.
    pub open spec fn arguments(&self) -> Seq<(Seq<char>, Seq<char>)> {
        self.pass_argument@.map_values(|a: (String, String)| (a.0@, a.1@))
    }
}

impl Default for CodegenConfig {
    /// `-Os`-style shrinking with `-O2` optimization, no debug info, no pass arguments.
    fn default() -> (c: Self)
        ensures
            c.shrink_level == 1,
            c.optimization_level == 2,
            !c.debug_info,
            c.pass_argument@.len() == 0,
    {
        CodegenConfig {
            shrink_level: 1,
            optimization_level: 2,
            debug_info: false,
            pass_argument: Vec::new(),
        }
    }
}

} // verus!
