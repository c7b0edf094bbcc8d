use safe_nlt::environment::EffectRec;
use safe_nlt::environment::ScriptedEnv;
use safe_nlt::run;
use safe_nlt::Config;
use safe_nlt::Error;

const LOG: &str = "INFO 2020-04-01 Vault connection info: 127.0.0.1:1234\n";

fn config(num_vaults: u8, interval: u64, vaults_verbosity: u8) -> Config {
    Config {
        verbosity: 0,
        vault_path: Some("/opt/bin/safe_vault".to_string()),
        interval,
        vaults_dir: "./vaults".to_string(),
        num_vaults,
        vaults_verbosity,
    }
}

fn happy_env(reads: &[&str]) -> ScriptedEnv {
    let read_script = reads.iter().map(|r| Some(r.to_string())).collect();
    ScriptedEnv::new(false, Vec::new(), read_script)
}

fn launches(env: &ScriptedEnv) -> Vec<(String, Vec<String>, bool)> {
    env.events
        .iter()
        .filter_map(|e| match e {
            EffectRec::Launch { bin, args, ok } => Some((bin.clone(), args.clone(), *ok)),
            _ => None,
        })
        .collect()
}

fn sleeps(env: &ScriptedEnv) -> Vec<u64> {
    env.events
        .iter()
        .filter_map(|e| match e {
            EffectRec::Sleep { secs } => Some(*secs),
            _ => None,
        })
        .collect()
}

#[test]
fn full_run_produces_the_exact_effect_sequence() {
    let mut env = happy_env(&[LOG]);
    let r = run(&mut env, &config(3, 5, 0));
    assert!(r.is_ok());
    assert_eq!(env.events.len(), 7);
    let ls = launches(&env);
    assert_eq!(ls.len(), 3);
    assert_eq!(ls[0].0, "/opt/bin/safe_vault");
    assert_eq!(
        ls[0].1,
        vec![
            "--first",
            "--root-dir",
            "./vaults/safe-vault-genesis",
            "--log-dir",
            "./vaults/safe-vault-genesis",
        ]
    );
    assert_eq!(
        ls[1].1,
        vec![
            "--root-dir",
            "./vaults/safe-vault-2",
            "--log-dir",
            "./vaults/safe-vault-2",
            "--hard-coded-contacts",
            "[127.0.0.1:1234]",
        ]
    );
    assert_eq!(
        ls[2].1,
        vec![
            "--root-dir",
            "./vaults/safe-vault-3",
            "--log-dir",
            "./vaults/safe-vault-3",
            "--hard-coded-contacts",
            "[127.0.0.1:1234]",
        ]
    );
    match &env.events[2] {
        EffectRec::Read { path, content } => {
            assert_eq!(path, "./vaults/safe-vault-genesis/safe_vault.log");
            assert!(content.is_some());
        }
        _ => panic!("third effect should be the log read"),
    }
}

#[test]
fn launch_attempts_are_one_per_instance() {
    for n in [1u8, 2, 3, 8] {
        let mut env = happy_env(&[LOG]);
        let r = run(&mut env, &config(n, 1, 0));
        assert!(r.is_ok());
        assert_eq!(launches(&env).len(), n as usize);
    }
}

#[test]
fn zero_instances_still_launch_genesis_only() {
    let mut env = happy_env(&[LOG]);
    let r = run(&mut env, &config(0, 1, 0));
    assert!(r.is_ok());
    let ls = launches(&env);
    assert_eq!(ls.len(), 1);
    assert!(ls[0].1.contains(&"--first".to_string()));
}

#[test]
fn only_genesis_gets_the_first_flag() {
    let mut env = happy_env(&[LOG]);
    let r = run(&mut env, &config(4, 1, 2));
    assert!(r.is_ok());
    let ls = launches(&env);
    let first = "--first".to_string();
    assert!(ls[0].1.contains(&first));
    for follower in &ls[1..] {
        assert!(!follower.1.contains(&first));
    }
}

#[test]
fn followers_all_share_the_scraped_contact() {
    let mut env = happy_env(&[LOG]);
    let r = run(&mut env, &config(5, 1, 0));
    assert!(r.is_ok());
    let ls = launches(&env);
    assert_eq!(ls.len(), 5);
    for follower in &ls[1..] {
        let args = &follower.1;
        assert_eq!(args[args.len() - 2], "--hard-coded-contacts");
        assert_eq!(args[args.len() - 1], "[127.0.0.1:1234]");
    }
}

#[test]
fn verbosity_token_is_handed_to_every_instance() {
    let mut env = happy_env(&[LOG]);
    let r = run(&mut env, &config(2, 1, 3));
    assert!(r.is_ok());
    for l in &launches(&env) {
        assert_eq!(l.1[0], "-vvv");
    }
}

#[test]
fn total_wait_is_at_least_interval_times_instances() {
    let mut env = happy_env(&[LOG]);
    let r = run(&mut env, &config(4, 7, 0));
    assert!(r.is_ok());
    let waits = sleeps(&env);
    assert_eq!(waits.len(), 4);
    let total: u64 = waits.iter().sum();
    assert!(total >= 7 * 4);
}

#[test]
fn genesis_launch_failure_ends_the_run_at_once() {
    let mut env = ScriptedEnv::new(false, vec![false], vec![Some(LOG.to_string())]);
    let r = run(&mut env, &config(3, 1, 0));
    assert!(matches!(r, Err(Error::Launch { .. })));
    assert_eq!(env.events.len(), 1);
    match &env.events[0] {
        EffectRec::Launch { ok, .. } => assert!(!ok),
        _ => panic!("the only effect should be the failed genesis launch"),
    }
}

#[test]
fn follower_launch_failure_stops_before_the_next_index() {
    let mut env = ScriptedEnv::new(false, vec![true, true, false], vec![Some(LOG.to_string())]);
    let r = run(&mut env, &config(5, 1, 0));
    match &r {
        Err(Error::Launch { bin, args, detail: _ }) => {
            assert_eq!(bin, "/opt/bin/safe_vault");
            assert!(args.contains(&"./vaults/safe-vault-3".to_string()));
        }
        _ => panic!("a failed spawn should surface as a Launch error with its diagnostics"),
    }
    let msg = r.unwrap_err().message();
    assert!(msg.contains("/opt/bin/safe_vault"));
    assert!(msg.contains("\"./vaults/safe-vault-3\""));
    assert!(msg.contains("\"--hard-coded-contacts\""));
    let ls = launches(&env);
    assert_eq!(ls.len(), 3);
    assert!(ls[0].2 && ls[1].2);
    assert!(!ls[2].2);
    assert!(ls[2].1.contains(&"./vaults/safe-vault-3".to_string()));
    match env.events.last().unwrap() {
        EffectRec::Launch { args, ok, .. } => {
            assert!(!ok);
            assert!(!args.iter().any(|a| a.contains("safe-vault-4")));
        }
        _ => panic!("the trace should end at the failed launch"),
    }
}

#[test]
fn unreadable_log_is_an_io_error() {
    let mut env = ScriptedEnv::new(false, Vec::new(), vec![None]);
    let r = run(&mut env, &config(3, 1, 0));
    match &r {
        Err(Error::Io { path, detail: _ }) => {
            assert_eq!(path, "./vaults/safe-vault-genesis/safe_vault.log");
        }
        _ => panic!("a failed read should surface as an Io error"),
    }
    let msg = r.unwrap_err().message();
    assert!(msg.starts_with("Failed to obtain the contact info of the genesis vault: "));
    assert_eq!(env.events.len(), 3);
}

#[test]
fn log_without_contact_line_is_not_found() {
    let mut env = happy_env(&["INFO started\nINFO nothing else\n"]);
    let r = run(&mut env, &config(3, 1, 0));
    assert!(matches!(r, Err(Error::NotFound)));
    assert_eq!(env.events.len(), 3);
    assert_eq!(launches(&env).len(), 1);
}

#[test]
fn windows_flavour_resolves_exe_name() {
    let mut env = ScriptedEnv::new(true, Vec::new(), vec![Some(LOG.to_string())]);
    let cfg = Config {
        verbosity: 0,
        vault_path: None,
        interval: 0,
        vaults_dir: "./vaults".to_string(),
        num_vaults: 1,
        vaults_verbosity: 0,
    };
    let r = run(&mut env, &cfg);
    if r.is_ok() {
        let ls = launches(&env);
        assert!(ls[0].0.ends_with("/.safe/vault/safe_vault.exe"));
    } else {
        assert!(matches!(r, Err(Error::Resolution)));
        assert!(env.events.is_empty());
    }
}
