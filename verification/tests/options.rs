use binaryen::config::CodegenConfig;
use binaryen::functions::Function;
use binaryen::options::{to_c_int, OptionsCall, PassOptions};

#[test]
fn default_codegen_config() {
    let c = CodegenConfig::default();
    assert_eq!(c.shrink_level, 1);
    assert_eq!(c.optimization_level, 2);
    assert!(!c.debug_info);
    assert!(c.pass_argument.is_empty());
}

#[test]
fn default_config_sets_only_the_levels() {
    let o = CodegenConfig::default().pass_options();
    let calls = o.calls();
    assert_eq!(calls.len(), 1);
    assert!(matches!(
        calls[0],
        OptionsCall::SetOptimizationOptions { shrink_level: 1, optimize_level: 2, debug_info: 0 }
    ));
}

#[test]
fn config_arguments_follow_the_levels_in_order() {
    let c = CodegenConfig {
        shrink_level: 0,
        optimization_level: 3,
        debug_info: true,
        pass_argument: vec![
            ("inline-main".to_string(), "1".to_string()),
            ("asyncify-imports".to_string(), "env.sleep".to_string()),
        ],
    };
    let o = c.pass_options();
    let calls = o.calls();
    assert_eq!(calls.len(), 3);
    assert!(matches!(
        calls[0],
        OptionsCall::SetOptimizationOptions { shrink_level: 0, optimize_level: 3, debug_info: 1 }
    ));
    match &calls[1] {
        OptionsCall::SetArgument { name, value } => {
            assert_eq!(name, &b"inline-main\0".to_vec());
            assert_eq!(value, &b"1\0".to_vec());
        }
        _ => panic!("expected an argument"),
    }
    match &calls[2] {
        OptionsCall::SetArgument { name, value } => {
            assert_eq!(name, &b"asyncify-imports\0".to_vec());
            assert_eq!(value, &b"env.sleep\0".to_vec());
        }
        _ => panic!("expected an argument"),
    }
}

#[test]
fn pass_options_record_calls_in_order() {
    let mut o = PassOptions::new();
    assert!(o.calls().is_empty());
    o.set_pass_argument("a", "b");
    o.set_optimization_options(2, 1, false);
    o.set_pass_argument("a", "c");
    let calls = o.calls();
    assert_eq!(calls.len(), 3);
    assert!(matches!(&calls[0], OptionsCall::SetArgument { value, .. } if value == &b"b\0".to_vec()));
    assert!(matches!(
        calls[1],
        OptionsCall::SetOptimizationOptions { shrink_level: 2, optimize_level: 1, debug_info: 0 }
    ));
    assert!(matches!(&calls[2], OptionsCall::SetArgument { value, .. } if value == &b"c\0".to_vec()));
}

#[test]
fn levels_wrap_into_c_ints() {
    assert_eq!(to_c_int(0), 0);
    assert_eq!(to_c_int(2), 2);
    assert_eq!(to_c_int(2147483647), 2147483647);
    assert_eq!(to_c_int(2147483648), -2147483648);
    assert_eq!(to_c_int(u32::MAX), -1);
    let mut o = PassOptions::new();
    o.set_optimization_options(u32::MAX, 4294967294, true);
    assert!(matches!(
        o.calls()[0],
        OptionsCall::SetOptimizationOptions { shrink_level: -1, optimize_level: -2, debug_info: 1 }
    ));
}

#[test]
fn functions_are_known_by_address() {
    let f = Function::from_raw(0x1000);
    assert_eq!(f.raw(), 0x1000);
    assert!(Function::from_nullable(0).is_none());
    assert_eq!(Function::from_nullable(0x2000).unwrap().raw(), 0x2000);
}
