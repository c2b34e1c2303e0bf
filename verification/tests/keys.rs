use skynet::derive_child_seed;
use skynet::gen_keypair_and_seed;
use skynet::gen_keypair_from_seed;

#[test]
fn test_keypair() {
    let (keypair, seed) = gen_keypair_and_seed(64);
    let keypair2 = gen_keypair_from_seed(&seed);
    assert_eq!(keypair.public_key, keypair2.public_key);
    assert_eq!(keypair.private_key, keypair2.private_key);
    let child_seed = derive_child_seed(&seed, b"foo");
    assert_eq!(child_seed.len(), seed.len());
}

#[test]
fn keypair_is_deterministic_and_seed_sensitive() {
    let seed1: Vec<u8> = (0u8..64).collect();
    let seed2: Vec<u8> = (1u8..65).collect();
    let a = gen_keypair_from_seed(&seed1);
    let b = gen_keypair_from_seed(&seed1);
    let c = gen_keypair_from_seed(&seed2);
    assert_eq!(a.public_key, b.public_key);
    assert_eq!(a.private_key, b.private_key);
    assert_ne!(a.public_key, c.public_key);
    assert_ne!(a.private_key, c.private_key);
}

#[test]
fn keypair_does_not_echo_the_seed() {
    let seed = [0u8; 64];
    let kp = gen_keypair_from_seed(&seed);
    assert_ne!(kp.public_key, [0u8; 32]);
    assert_ne!(&kp.private_key[..32], &seed[..32]);
}

#[test]
fn child_seeds_differ_by_label_and_keep_length() {
    let master: Vec<u8> = (0u8..64).collect();
    let c1 = derive_child_seed(&master, b"first label");
    let c2 = derive_child_seed(&master, b"second label");
    assert_eq!(c1.len(), master.len());
    assert_eq!(c2.len(), master.len());
    assert_ne!(c1, c2);
    assert_eq!(c1, derive_child_seed(&master, b"first label"));
    assert_ne!(c1, master);
}

#[test]
fn short_master_yields_short_child() {
    let master = [7u8; 16];
    let child = derive_child_seed(&master, b"x");
    assert_eq!(child.len(), 16);
}
