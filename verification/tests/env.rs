use druid_core::env::Env;
use druid_core::env::Value;

#[test]
fn new_env_is_empty() {
    let env = Env::new();
    assert_eq!(env.len(), 0);
    assert_eq!(env.get(7), None);
}

#[test]
fn set_then_get() {
    let mut env = Env::new();
    env.set(7, Value::Int(-3));
    assert_eq!(env.get(7), Some(Value::Int(-3)));
    assert_eq!(env.get(8), None);
    assert_eq!(env.len(), 1);
}

#[test]
fn set_replaces_the_value_under_a_key() {
    let mut env = Env::new();
    env.set(7, Value::Bool(true));
    env.set(7, Value::UnsignedInt(9));
    assert_eq!(env.get(7), Some(Value::UnsignedInt(9)));
    assert_eq!(env.len(), 1);
}

#[test]
fn keys_may_come_in_any_order() {
    let mut env = Env::new();
    for key in [5u64, 1, 9, 3, 7, 0, u64::MAX] {
        env.set(key, Value::UnsignedInt(key));
    }
    assert_eq!(env.len(), 7);
    for key in [0u64, 1, 3, 5, 7, 9, u64::MAX] {
        assert_eq!(env.get(key), Some(Value::UnsignedInt(key)));
    }
    for key in [2u64, 4, 6, 8, 10] {
        assert_eq!(env.get(key), None);
    }
}

#[test]
fn a_copy_does_not_share_changes() {
    let mut env = Env::new();
    env.set(1, Value::Int(1));
    let mut copy = env.clone();
    copy.set(1, Value::Int(2));
    copy.set(2, Value::Int(3));
    assert_eq!(env.get(1), Some(Value::Int(1)));
    assert_eq!(env.get(2), None);
    assert_eq!(copy.get(1), Some(Value::Int(2)));
    assert_eq!(copy.get(2), Some(Value::Int(3)));
}
