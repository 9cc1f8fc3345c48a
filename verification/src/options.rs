//! Binaryen's pass options, held as the calls that configure them, in order.

use vstd::prelude::*;
use vstd::utf8::encode_utf8;

use crate::config::CodegenConfig;
use crate::cstring::{c_bytes, nul_terminated};

verus! {

/// The C `int` that a `u32` becomes when cast: the same number where it fits, else
/// the number less 2^32.
pub open spec fn c_int(x: u32) -> i32 {
    if x <= i32::MAX {
        x as i32
    } else {
        (x - 0x1_0000_0000) as i32
    }
}

/// The C `int` of a flag: 1 for set, 0 for clear.
pub open spec fn c_flag(b: bool) -> i32 {
    if b {
        1
    } else {
        0
    }
}

/// `x` cast to a C `int`.
pub fn to_c_int(x: u32) -> (r: i32)
    ensures
        r == c_int(x),
{
    let r = x as i32;
    assert(r == c_int(x)) by (bit_vector)
        requires
            r == x as i32,
    ;
    r
}

/// One call that configures Binaryen's pass options.
pub enum OptionsCall {
    /// `BinaryenPassOptionsSetOptimizationOptions` with these C ints.
    SetOptimizationOptions { shrink_level: i32, optimize_level: i32, debug_info: i32 },
    /// `BinaryenPassOptionsSetArgument` with these NUL-terminated strings.
    SetArgument { name: Vec<u8>, value: Vec<u8> },
}

/// What an [`OptionsCall`] holds, as mathematical values.
pub enum OptionsCallView {
    SetOptimizationOptions { shrink_level: i32, optimize_level: i32, debug_info: i32 },
    SetArgument { name: Seq<u8>, value: Seq<u8> },
}

impl View for OptionsCall {
    type V = OptionsCallView;

    open spec fn view(&self) -> OptionsCallView {
        match self {
            OptionsCall::SetOptimizationOptions { shrink_level, optimize_level, debug_info } =>
                OptionsCallView::SetOptimizationOptions {
                shrink_level: *shrink_level,
                optimize_level: *optimize_level,
                debug_info: *debug_info,
            },
            OptionsCall::SetArgument { name, value } => OptionsCallView::SetArgument {
                name: name@,
                value: value@,
            },
        }
    }
}

/// The call that sets the optimization options to these levels and flag.
pub open spec fn optimization_call(shrink_level: u32, optimize_level: u32, debug_info: bool)
    -> OptionsCallView {
    OptionsCallView::SetOptimizationOptions {
        shrink_level: c_int(shrink_level),
        optimize_level: c_int(optimize_level),
        debug_info: c_flag(debug_info),
    }
}

/// The call that sets the pass argument `name` to `value`.
pub open spec fn argument_call(name: Seq<char>, value: Seq<char>) -> OptionsCallView {
    OptionsCallView::SetArgument {
        name: c_bytes(encode_utf8(name)),
        value: c_bytes(encode_utf8(value)),
    }
}

/// Binaryen's pass options, as the calls that set them up on fresh options, in order.
pub struct PassOptions {
    calls: Vec<OptionsCall>,
}

impl View for PassOptions {
    type V = Seq<OptionsCallView>;

    closed spec fn view(&self) -> Seq<OptionsCallView> {
        self.calls@.map_values(|c: OptionsCall| c@)
    }
}

impl PassOptions {
    /// Fresh options: no call made on them.
    pub fn new() -> (o: PassOptions)
        ensures
            o@ == Seq::<OptionsCallView>::empty(),
    {
        let o = PassOptions { calls: Vec::new() };
        assert(o@ =~= Seq::<OptionsCallView>::empty());
        o
    }

    /// Set the pass argument `name` to `value`; both go to Binaryen NUL-terminated.
    pub fn set_pass_argument(&mut self, name: &str, value: &str)
        ensures
            final(self)@ == old(self)@.push(argument_call(name@, value@)),
    {
        let call = OptionsCall::SetArgument { name: nul_terminated(name), value: nul_terminated(value) };
        self.calls.push(call);
        assert(self@ =~= old(self)@.push(argument_call(name@, value@)));
    }

    /// shrink_level: 0, 1, 2 correspond to -O0, -Os, -Oz
    /// optimization_level: 0, 1, 2 correspond to -O0, -Os, -Oz
    /// debug_info If set, the names section is emitted.
    pub fn set_optimization_options(&mut self, shrink_level: u32, optimize_level: u32, debug_info: bool)
        ensures
            final(self)@ == old(self)@.push(
                optimization_call(shrink_level, optimize_level, debug_info),
            ),
    {
        let call = OptionsCall::SetOptimizationOptions {
            shrink_level: to_c_int(shrink_level),
            optimize_level: to_c_int(optimize_level),
            debug_info: if debug_info {
                1
            } else {
                0
            },
        };
        self.calls.push(call);
        assert(self@ =~= old(self)@.push(
            optimization_call(shrink_level, optimize_level, debug_info),
        ));
    }

    /// The calls, in the order in which they are to be made.
    pub fn calls(&self) -> (c: &Vec<OptionsCall>)
        ensures
            c@.map_values(|x: OptionsCall| x@) == self@,
    {
        &self.calls
    }
}

/// The calls that configure pass options after `config`: its optimization levels
/// and flag first, then each of its pass arguments in order.
pub open spec fn config_calls(config: &CodegenConfig) -> Seq<OptionsCallView> {
    seq![optimization_call(config.shrink_level, config.optimization_level, config.debug_info)]
        + config.arguments().map_values(|a: (Seq<char>, Seq<char>)| argument_call(a.0, a.1))
}

/// The call that sets the optimization options carries the two levels as the C ints
/// they become (the level itself where it fits, else the level less 2^32) and the
/// debug flag as 1 when set and 0 when clear.
pub proof fn law_optimization_call_carries_levels_and_flag(
    shrink_level: u32,
    optimize_level: u32,
    debug_info: bool,
)
    ensures
        optimization_call(shrink_level, optimize_level, debug_info) matches
            OptionsCallView::SetOptimizationOptions { shrink_level: a, optimize_level: b, debug_info: c }
            && a as int == (if shrink_level <= 0x7fff_ffff { shrink_level as int } else {
            shrink_level - 0x1_0000_0000 }) && b as int == (if optimize_level <= 0x7fff_ffff {
            optimize_level as int } else { optimize_level - 0x1_0000_0000 }) && c == (if debug_info {
            1i32 } else { 0i32 }),
{
}

/// The call that sets a pass argument carries the whole name and the whole value, of
/// any length: each is its UTF-8 bytes followed by one terminating NUL.
pub proof fn law_argument_call_carries_whole_strings(name: Seq<char>, value: Seq<char>)
    ensures
        argument_call(name, value) matches OptionsCallView::SetArgument { name: n, value: v }
            && n.len() == encode_utf8(name).len() + 1 && n.last() == 0u8 && n.drop_last()
            == encode_utf8(name) && v.len() == encode_utf8(value).len() + 1 && v.last() == 0u8
            && v.drop_last() == encode_utf8(value),
{
    assert(c_bytes(encode_utf8(name)).drop_last() =~= encode_utf8(name));
    assert(c_bytes(encode_utf8(value)).drop_last() =~= encode_utf8(value));
}

/// The calls asked for by a configuration: one call per pass argument after a first
/// call; that first call sets the configuration's two levels and its debug flag
/// whatever the pass arguments are, and the call after it for each argument, in order,
/// hands Binaryen that argument's whole name and whole value.
pub proof fn law_config_calls(config: &CodegenConfig)
    ensures
        config_calls(config).len() == config.pass_argument@.len() + 1,
        config_calls(config)[0] matches OptionsCallView::SetOptimizationOptions {
            shrink_level: a,
            optimize_level: b,
            debug_info: c,
        } && a as int == (if config.shrink_level <= 0x7fff_ffff { config.shrink_level as int } else {
            config.shrink_level - 0x1_0000_0000 }) && b as int == (if config.optimization_level
            <= 0x7fff_ffff { config.optimization_level as int } else { config.optimization_level
            - 0x1_0000_0000 }) && c == (if config.debug_info { 1i32 } else { 0i32 }),
        forall|i: int|
            0 <= i < config.pass_argument@.len() ==> ((#[trigger] config_calls(config)[i + 1])
                matches OptionsCallView::SetArgument { name: n, value: v } && n.last() == 0u8
                && n.drop_last() == encode_utf8(config.pass_argument@[i].0@) && v.last() == 0u8
                && v.drop_last() == encode_utf8(config.pass_argument@[i].1@)),
{
    law_optimization_call_carries_levels_and_flag(
        config.shrink_level,
        config.optimization_level,
        config.debug_info,
    );
    assert forall|i: int| 0 <= i < config.pass_argument@.len() implies ((#[trigger] config_calls(
        config,
    )[i + 1]) matches OptionsCallView::SetArgument { name: n, value: v } && n.last() == 0u8
        && n.drop_last() == encode_utf8(config.pass_argument@[i].0@) && v.last() == 0u8
        && v.drop_last() == encode_utf8(config.pass_argument@[i].1@)) by {
        let a = config.pass_argument@[i];
        assert(config.arguments()[i] == (a.0@, a.1@));
        assert(config_calls(config)[i + 1] == argument_call(a.0@, a.1@));
        law_argument_call_carries_whole_strings(a.0@, a.1@);
    }
}

impl CodegenConfig {
    /// The pass options that this configuration asks for.
    pub fn pass_options(&self) -> (o: PassOptions)
        ensures
            o@ == config_calls(self),
    {
        let mut options = PassOptions::new();
        options.set_optimization_options(self.shrink_level, self.optimization_level, self.debug_info);
        let n = self.pass_argument.len();
        let mut i: usize = 0;
        while i < n
            invariant
                n == self.pass_argument@.len(),
                i <= n,
                options@ == config_calls(self).subrange(0, i + 1),
            decreases n - i,
        {
            let (name, value) = &self.pass_argument[i];
            options.set_pass_argument(name.as_str(), value.as_str());
            assert(options@ =~= config_calls(self).subrange(0, i + 2));
            i = i + 1;
        }
        assert(options@ =~= config_calls(self));
        options
    }
}

} // verus!
