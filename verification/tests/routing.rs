use scylla::routing::{Sharder, ShardingError, Token};
use std::cmp::Ordering;

fn sharder(nr_shards: u16, msb_ignore: u8) -> Sharder {
    Sharder::new(nr_shards, msb_ignore).unwrap()
}

#[test]
fn shard_of_known_tokens() {
    let s = sharder(4, 12);
    assert_eq!(s.shard_for_token(Token { value: -9219783007514621794 }), 3);
    assert_eq!(s.shard_for_token(Token { value: 9222582454147032830 }), 3);
    assert_eq!(s.shard_for_token(Token { value: 1125899906842624 }), 1);
    assert_eq!(s.shard_for_token(Token { value: 0 }), 0);
}

#[test]
fn shard_of_without_ignored_bits() {
    let s = sharder(4, 0);
    assert_eq!(s.shard_for_token(Token { value: i64::MIN }), 0);
    assert_eq!(s.shard_for_token(Token { value: -4611686018427387904 }), 1);
    assert_eq!(s.shard_for_token(Token { value: -1 }), 1);
    assert_eq!(s.shard_for_token(Token { value: 0 }), 2);
    assert_eq!(s.shard_for_token(Token { value: i64::MAX }), 3);
    assert_eq!(sharder(7, 0).shard_for_token(Token { value: 123456789 }), 3);
    assert_eq!(sharder(3, 5).shard_for_token(Token { value: 1234567890123 }), 0);
}

#[test]
fn shard_of_at_the_limits() {
    assert_eq!(sharder(65535, 0).shard_for_token(Token { value: i64::MAX }), 65534);
    assert_eq!(sharder(65535, 63).shard_for_token(Token { value: i64::MAX }), 32767);
    assert_eq!(sharder(1, 0).shard_for_token(Token { value: i64::MAX }), 0);
    assert_eq!(sharder(1, 63).shard_for_token(Token { value: i64::MIN }), 0);
}

#[test]
fn shard_is_below_the_shard_count() {
    let tokens = [i64::MIN, -77, -1, 0, 1, 42, 1 << 40, i64::MAX];
    for n in [1u16, 2, 3, 4, 5, 16, 255, 65535] {
        for m in [0u8, 1, 12, 31, 63] {
            let s = sharder(n, m);
            for t in tokens {
                assert!(s.shard_for_token(Token { value: t }) < n);
            }
        }
    }
}

#[test]
fn sharding_is_deterministic() {
    let a = sharder(4, 12);
    let b = sharder(4, 12);
    let mut t: i64 = -9_000_000_000_000_000_000;
    for _ in 0..1000 {
        let token = Token { value: t };
        let first = a.shard_for_token(token);
        assert_eq!(a.shard_for_token(token), first);
        assert_eq!(b.shard_for_token(token), first);
        t += 18_000_000_000_000_000;
    }
}

#[test]
fn sharder_parameters() {
    let s = sharder(4, 12);
    assert_eq!(s.shard_count(), 4);
    assert_eq!(s.msb_ignore(), 12);
}

#[test]
fn sharder_rejects_zero_shards() {
    assert_eq!(Sharder::new(0, 0), Err(ShardingError::ZeroShards));
    assert_eq!(Sharder::new(0, 64), Err(ShardingError::ZeroShards));
}

#[test]
fn sharder_rejects_too_many_ignored_bits() {
    assert_eq!(Sharder::new(4, 64), Err(ShardingError::MsbIgnoreTooLarge));
    assert_eq!(Sharder::new(4, 255), Err(ShardingError::MsbIgnoreTooLarge));
    assert!(Sharder::new(4, 63).is_ok());
}

#[test]
fn tokens_are_ordered_by_value() {
    assert!(Token { value: -5 } < Token { value: 3 });
    assert!(Token { value: i64::MIN } < Token { value: i64::MAX });
    assert_eq!(Token { value: 9 }, Token { value: 9 });
}

#[test]
fn token_comparison_follows_the_value() {
    let a = Token { value: -5 };
    let b = Token { value: 3 };
    assert_eq!(a.partial_cmp(&b), Some(Ordering::Less));
    assert_eq!(b.partial_cmp(&a), Some(Ordering::Greater));
    assert_eq!(a.partial_cmp(&a), Some(Ordering::Equal));
    assert_eq!(a.cmp(&b), Ordering::Less);
    assert_eq!(b.max(a), b);
    let mut tokens = vec![b, a, Token { value: i64::MIN }];
    tokens.sort();
    assert_eq!(tokens, vec![Token { value: i64::MIN }, a, b]);
}
