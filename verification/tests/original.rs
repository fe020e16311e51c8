use passchain::utils;
use ring::rand::{SecureRandom, SystemRandom};

fn random_bytes_512() -> [u8; 512] {
    let rnd = SystemRandom::new();
    let mut tmp = [0; 512];
    rnd.fill(&mut tmp).unwrap();
    tmp
}

#[test]
fn test_entropy() {
    let r = random_bytes_512();
    let e = entropy::shannon_entropy(r);
    println!("e = {e}");
    let block = passchain::block::new_random_block().unwrap();
    let e = entropy::shannon_entropy(block);
    println!("e = {e}");
}

#[test]
fn test_block_to_password() {
    let r = passchain::block::new_random_block().unwrap();
    assert_eq!(r.len(), 128);
    let x1 = utils::base_x::b93enc(&r);
    let x2 = utils::base_x::b64enc(&r);

    let b3 = utils::hash::blake3_64(&r);
    let x3 = utils::base_x::b93enc(&b3);

    println!("x1 = {x1}");
    println!("x2 = {x2}");
    println!("x3 = {x3}");
}
