use monitor_core::interpolate::{
    add_interp_update_log, extend_replacers, interpolate_variables_secrets_into_extra_args,
    interpolate_variables_secrets_into_string, interpolate_variables_secrets_into_system_command,
    InterpolateError, SystemCommand, VariablesAndSecrets,
};
use monitor_core::update::{Operation, ResourceTarget, Update};

fn pairs(p: &[(&str, &str)]) -> Vec<(String, String)> {
    p.iter().map(|(a, b)| (a.to_string(), b.to_string())).collect()
}

fn vars() -> VariablesAndSecrets {
    VariablesAndSecrets {
        variables: pairs(&[("GREETING", "hi")]),
        secrets: pairs(&[("APIKEY", "abc")]),
    }
}

#[test]
fn interpolation_redaction() {
    let vs = vars();
    let mut command = SystemCommand { path: "/srv".to_string(), command: "echo [[GREETING]] [[APIKEY]]".to_string() };
    let mut global = Vec::new();
    let mut secret = Vec::new();
    interpolate_variables_secrets_into_system_command(&vs, &mut command, &mut global, &mut secret).unwrap();
    assert_eq!(command.command, "echo hi abc");
    assert_eq!(command.path, "/srv");
    assert_eq!(global, pairs(&[("hi", "GREETING")]));
    assert_eq!(secret, pairs(&[("abc", "APIKEY")]));
    let mut update = Update::start(ResourceTarget::System, Operation::NoOperation, &"alice".to_string(), 1);
    add_interp_update_log(&mut update, &global, &secret, 2);
    assert_eq!(update.logs.len(), 2);
    assert_eq!(update.logs[0].stage, "interpolate global variables");
    assert_eq!(update.logs[0].stdout, "GREETING => hi");
    assert_eq!(update.logs[1].stage, "interpolate core secrets");
    assert_eq!(update.logs[1].stdout, "replaced: APIKEY");
    for log in &update.logs {
        assert!(!log.stdout.contains("abc"));
        assert!(!log.stderr.contains("abc"));
    }
}

#[test]
fn empty_target_passes_through() {
    let vs = vars();
    let mut target = String::new();
    let mut global = Vec::new();
    let mut secret = Vec::new();
    interpolate_variables_secrets_into_string(&vs, &mut target, &mut global, &mut secret).unwrap();
    assert_eq!(target, "");
    assert!(global.is_empty() && secret.is_empty());
}

#[test]
fn text_without_tokens_is_unchanged() {
    let vs = vars();
    let mut target = "plain text".to_string();
    let mut global = Vec::new();
    let mut secret = Vec::new();
    interpolate_variables_secrets_into_string(&vs, &mut target, &mut global, &mut secret).unwrap();
    assert_eq!(target, "plain text");
    assert!(global.is_empty() && secret.is_empty());
}

#[test]
fn unknown_token_is_left_literal() {
    let vs = vars();
    let mut target = "a [[MISSING]] b [[GREETING]]".to_string();
    let mut global = Vec::new();
    let mut secret = Vec::new();
    interpolate_variables_secrets_into_string(&vs, &mut target, &mut global, &mut secret).unwrap();
    assert_eq!(target, "a [[MISSING]] b hi");
}

#[test]
fn interpolating_twice_changes_nothing_more() {
    let vs = vars();
    let mut target = "x [[GREETING]] y".to_string();
    let mut global = Vec::new();
    let mut secret = Vec::new();
    interpolate_variables_secrets_into_string(&vs, &mut target, &mut global, &mut secret).unwrap();
    let once = target.clone();
    let mut global2 = Vec::new();
    let mut secret2 = Vec::new();
    interpolate_variables_secrets_into_string(&vs, &mut target, &mut global2, &mut secret2).unwrap();
    assert_eq!(target, once);
    assert!(!target.contains("[[GREETING]]"));
    assert!(global2.is_empty() && secret2.is_empty());
}

#[test]
fn unclosed_token_is_an_error() {
    let vs = vars();
    let mut target = "echo [[GREETING".to_string();
    let mut global = Vec::new();
    let mut secret = Vec::new();
    let r = interpolate_variables_secrets_into_string(&vs, &mut target, &mut global, &mut secret);
    assert_eq!(r, Err(InterpolateError::GlobalVariables));
    assert_eq!(target, "echo [[GREETING");
}

#[test]
fn extra_args_interpolated_one_by_one() {
    let vs = vars();
    let mut args = vec!["".to_string(), "--greet=[[GREETING]]".to_string(), "--key=[[APIKEY]]".to_string()];
    let mut global = Vec::new();
    let mut secret = Vec::new();
    interpolate_variables_secrets_into_extra_args(&vs, &mut args, &mut global, &mut secret).unwrap();
    assert_eq!(args, vec!["".to_string(), "--greet=hi".to_string(), "--key=abc".to_string()]);
    assert_eq!(global, pairs(&[("hi", "GREETING")]));
    assert_eq!(secret, pairs(&[("abc", "APIKEY")]));
}

#[test]
fn replacer_sets_keep_one_copy() {
    let mut set = pairs(&[("hi", "GREETING")]);
    extend_replacers(&mut set, pairs(&[("hi", "GREETING"), ("abc", "APIKEY")]));
    assert_eq!(set, pairs(&[("hi", "GREETING"), ("abc", "APIKEY")]));
}

#[test]
fn no_replacements_add_no_log() {
    let mut update = Update::start(ResourceTarget::System, Operation::NoOperation, &"alice".to_string(), 1);
    add_interp_update_log(&mut update, &Vec::new(), &Vec::new(), 2);
    assert!(update.logs.is_empty());
}

#[test]
fn extra_args_stop_at_first_failure() {
    let vs = vars();
    let mut args = vec!["--a=[[GREETING]]".to_string(), "bad [[X".to_string(), "--k=[[APIKEY]]".to_string()];
    let mut global = Vec::new();
    let mut secret = Vec::new();
    let r = interpolate_variables_secrets_into_extra_args(&vs, &mut args, &mut global, &mut secret);
    assert_eq!(r, Err(InterpolateError::GlobalVariables));
    assert_eq!(args, vec!["--a=hi".to_string(), "bad [[X".to_string(), "--k=[[APIKEY]]".to_string()]);
}
