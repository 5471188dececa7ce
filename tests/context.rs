use mining_pool::algo::{AlgoType, P3dParams};
use mining_pool::context::{
    encryption_seed, strip_first_0x, MiningContext, MiningObj, MiningProposal, Payload,
};
use mining_pool::error::MiningError;
use mining_pool::params::{decode_mining_params, MiningParams};

const KEY_HEX: &str = "0x1111111111111111111111111111111111111111111111111111111111111111";

fn grid2d() -> P3dParams {
    P3dParams::new("grid2d").unwrap()
}

fn context() -> MiningContext {
    MiningContext::new(grid2d(), "P1".to_string(), "M1".to_string(), KEY_HEX).unwrap()
}

fn pool_secret() -> ecies_ed25519::SecretKey {
    ecies_ed25519::SecretKey::from_bytes(&[3u8; 32]).unwrap()
}

fn pool_key_hex() -> String {
    hex::encode(ecies_ed25519::PublicKey::from_secret(&pool_secret()).to_bytes())
}

fn answer() -> Vec<Option<String>> {
    vec![
        Some(format!("0x{}", "ab".repeat(32))),
        Some("cd".repeat(32)),
        Some("ff".to_string()),
        Some("0x1234".to_string()),
        Some(pool_key_hex()),
    ]
}

fn payload_json(p: &Payload) -> String {
    let mut m = serde_json::Map::new();
    m.insert("pool_id".to_string(), serde_json::Value::from(p.pool_id.clone()));
    m.insert("member_id".to_string(), serde_json::Value::from(p.member_id.clone()));
    m.insert("algo".to_string(), serde_json::Value::from(p.algo.clone()));
    m.insert("obj_id".to_string(), serde_json::Value::from(p.obj_id));
    m.insert("obj".to_string(), serde_json::Value::from(p.obj.clone()));
    m.insert("hash".to_string(), serde_json::Value::from(hex::encode(p.hash)));
    serde_json::Value::Object(m).to_string()
}

fn proposal(ctx: &mut MiningContext, hash: [u8; 32]) -> MiningProposal {
    let params = ctx.cur_state().unwrap();
    let obj = ctx.pop_object().unwrap();
    MiningProposal::new(params, hash, obj)
}

#[test]
fn strip_first_0x_anywhere() {
    assert_eq!(strip_first_0x(b"0xab"), b"ab".to_vec());
    assert_eq!(strip_first_0x(b"ab0xcd0x"), b"abcd0x".to_vec());
    assert_eq!(strip_first_0x(b"abcd"), b"abcd".to_vec());
    assert_eq!(strip_first_0x(b"0"), b"0".to_vec());
    assert_eq!(strip_first_0x(b""), Vec::<u8>::new());
}

#[test]
fn context_new_accepts_key_with_or_without_prefix() {
    let ctx = context();
    assert_eq!(ctx.pool_id(), "P1");
    assert_eq!(ctx.member_id(), "M1");
    assert_eq!(ctx.p3d_params(), grid2d());
    assert!(ctx.cur_state().is_none());
    assert!(MiningContext::new(grid2d(), "P".into(), "M".into(), &KEY_HEX[2..]).is_ok());
}

#[test]
fn context_new_rejects_bad_keys() {
    let bad_hex = MiningContext::new(grid2d(), "P".into(), "M".into(), "0xzz");
    assert_eq!(bad_hex.err(), Some(MiningError::KeyEncoding));
    let odd = MiningContext::new(grid2d(), "P".into(), "M".into(), "123");
    assert_eq!(odd.err(), Some(MiningError::KeyEncoding));
    let short = MiningContext::new(grid2d(), "P".into(), "M".into(), &"11".repeat(31));
    assert_eq!(short.err(), Some(MiningError::KeyLength));
    let long = MiningContext::new(grid2d(), "P".into(), "M".into(), &"11".repeat(33));
    assert_eq!(long.err(), Some(MiningError::KeyLength));
}

#[test]
fn on_new_object_queues_and_acknowledges() {
    let mut ctx = context();
    assert_eq!(ctx.on_new_object(Some(7), Some("abc")), Ok(0));
    assert_eq!(ctx.on_new_object(Some(8), Some("de")), Ok(0));
    let first = ctx.pop_object().unwrap();
    assert_eq!(first.obj_id, 7);
    assert_eq!(first.obj, b"abc".to_vec());
    let second = ctx.pop_object().unwrap();
    assert_eq!(second.obj_id, 8);
    assert_eq!(second.obj, b"de".to_vec());
    assert!(ctx.pop_object().is_none());
}

#[test]
fn on_new_object_malformed_call() {
    let mut ctx = context();
    assert_eq!(ctx.on_new_object(None, Some("abc")), Err(MiningError::MalformedCall));
    assert_eq!(ctx.on_new_object(Some(1), None), Err(MiningError::MalformedCall));
    assert!(ctx.pop_object().is_none());
}

#[test]
fn refresh_applies_decoded_fields() {
    let mut ctx = context();
    assert_eq!(ctx.apply_mining_params(&answer()), Ok(()));
    let p = ctx.cur_state().unwrap();
    assert_eq!(p.pre_hash, [0xab; 32]);
    assert_eq!(p.parent_hash, [0xcd; 32]);
    let mut win = [0u8; 32];
    win[31] = 0xff;
    assert_eq!(p.win_dfclty, win);
    let mut pow = [0u8; 32];
    pow[30] = 0x12;
    pow[31] = 0x34;
    assert_eq!(p.pow_dfclty, pow);
    assert_eq!(hex::encode(p.pub_key), pool_key_hex());
}

#[test]
fn refresh_missing_field_keeps_state() {
    let mut ctx = context();
    ctx.apply_mining_params(&answer()).unwrap();
    let before = ctx.cur_state().unwrap();
    let mut short = answer();
    short.pop();
    assert_eq!(ctx.apply_mining_params(&short), Err(MiningError::MissingField));
    let mut gap = answer();
    gap[2] = None;
    assert_eq!(ctx.apply_mining_params(&gap), Err(MiningError::MissingField));
    let after = ctx.cur_state().unwrap();
    assert_eq!(after.pre_hash, before.pre_hash);
    assert_eq!(after.pow_dfclty, before.pow_dfclty);
    assert_eq!(after.pub_key, before.pub_key);
}

#[test]
fn refresh_invalid_field_keeps_state() {
    let mut ctx = context();
    let mut bad_hash = answer();
    bad_hash[0] = Some("ab".repeat(31));
    assert_eq!(ctx.apply_mining_params(&bad_hash), Err(MiningError::InvalidField));
    let mut bad_num = answer();
    bad_num[3] = Some("xyz".to_string());
    assert_eq!(ctx.apply_mining_params(&bad_num), Err(MiningError::InvalidField));
    let mut too_long = answer();
    too_long[2] = Some("1".repeat(65));
    assert_eq!(ctx.apply_mining_params(&too_long), Err(MiningError::InvalidField));
    assert!(ctx.cur_state().is_none());
}

#[test]
fn decode_rejects_key_off_the_curve() {
    let mut fields = answer();
    let mut found = None;
    for b in 0u8..=255 {
        let cand = format!("{:02x}{}", b, "00".repeat(30) + "02");
        fields[4] = Some(cand);
        if let Err(e) = decode_mining_params(&fields) {
            found = Some(e);
            break;
        }
    }
    assert_eq!(found, Some(MiningError::InvalidField));
}

#[test]
fn u256_fields_accept_odd_length_and_empty() {
    let mut fields = answer();
    fields[2] = Some("abc".to_string());
    fields[3] = Some(String::new());
    let p: MiningParams = decode_mining_params(&fields).unwrap();
    let mut win = [0u8; 32];
    win[30] = 0x0a;
    win[31] = 0xbc;
    assert_eq!(p.win_dfclty, win);
    assert_eq!(p.pow_dfclty, [0u8; 32]);
}

#[test]
fn payload_copies_identity_and_proposal() {
    let mut ctx = context();
    ctx.apply_mining_params(&answer()).unwrap();
    ctx.on_new_object(Some(7), Some("abc")).unwrap();
    let prop = proposal(&mut ctx, [9u8; 32]);
    let p = ctx.payload(&prop);
    assert_eq!(p.pool_id, "P1");
    assert_eq!(p.member_id, "M1");
    assert_eq!(p.algo, AlgoType::Grid2d.as_str());
    assert_eq!(p.pre_hash, [0xab; 32]);
    assert_eq!(p.parent_hash, [0xcd; 32]);
    assert_eq!(p.dfclty, prop.params.pow_dfclty);
    assert_eq!(p.hash, [9u8; 32]);
    assert_eq!(p.obj_id, 7);
    assert_eq!(p.obj, b"abc".to_vec());
}

#[test]
fn proposals_queue_in_order() {
    let mut ctx = context();
    ctx.apply_mining_params(&answer()).unwrap();
    ctx.on_new_object(Some(1), Some("a")).unwrap();
    ctx.on_new_object(Some(2), Some("b")).unwrap();
    let p1 = proposal(&mut ctx, [1u8; 32]);
    let p2 = proposal(&mut ctx, [2u8; 32]);
    ctx.push_to_queue(p1);
    ctx.push_to_queue(p2);
    assert_eq!(ctx.pop_proposal().unwrap().obj_id, 1);
    assert_eq!(ctx.pop_proposal().unwrap().obj_id, 2);
    assert!(ctx.pop_proposal().is_none());
}

#[test]
fn seed_is_the_hash() {
    let h = [0x5a; 32];
    assert_eq!(encryption_seed(&h), h);
}

#[test]
fn packaging_is_deterministic_in_hash() {
    let mut ctx = context();
    ctx.apply_mining_params(&answer()).unwrap();
    ctx.on_new_object(Some(7), Some("abc")).unwrap();
    let prop = proposal(&mut ctx, [4u8; 32]);
    let msg = payload_json(&ctx.payload(&prop));
    let a = ctx.package_proposal(&prop, msg.as_bytes()).unwrap();
    let b = ctx.package_proposal(&prop, msg.as_bytes()).unwrap();
    assert_eq!(a.ciphertext, b.ciphertext);
    let other = MiningProposal::new(prop.params, [5u8; 32], MiningObj { obj_id: 7, obj: prop.obj.clone() });
    let c = ctx.package_proposal(&other, msg.as_bytes()).unwrap();
    assert_ne!(a.ciphertext, c.ciphertext);
}

#[test]
fn signature_verifies_only_under_pool_context_and_key() {
    let mut ctx = context();
    ctx.apply_mining_params(&answer()).unwrap();
    ctx.on_new_object(Some(7), Some("abc")).unwrap();
    let prop = proposal(&mut ctx, [4u8; 32]);
    let sealed = ctx.package_proposal(&prop, b"message").unwrap();
    assert_eq!(sealed.member_id, "M1");
    assert_eq!(sealed.signature.len(), 128);
    assert!(sealed.signature.chars().all(|c| c.is_ascii_hexdigit() && !c.is_ascii_uppercase()));
    let sig_bytes = hex::decode(&sealed.signature).unwrap();
    let sig = schnorrkel::Signature::from_bytes(&sig_bytes).unwrap();
    let seed = hex::decode(&KEY_HEX[2..]).unwrap();
    let public = schnorrkel::MiniSecretKey::from_bytes(&seed)
        .unwrap()
        .expand_to_public(schnorrkel::ExpansionMode::Ed25519);
    assert!(public.verify_simple(b"Mining pool", &sealed.ciphertext, &sig).is_ok());
    assert!(public.verify_simple(b"Mining pool!", &sealed.ciphertext, &sig).is_err());
    let other = schnorrkel::MiniSecretKey::from_bytes(&[2u8; 32])
        .unwrap()
        .expand_to_public(schnorrkel::ExpansionMode::Ed25519);
    assert!(other.verify_simple(b"Mining pool", &sealed.ciphertext, &sig).is_err());
}

#[test]
fn end_to_end_submission_decrypts_to_payload() {
    let mut ctx = context();
    assert_eq!(ctx.on_new_object(Some(7), Some("abc")), Ok(0));
    ctx.apply_mining_params(&answer()).unwrap();
    let prop = proposal(&mut ctx, [0x42; 32]);
    let msg = payload_json(&ctx.payload(&prop));
    let sealed = ctx.package_proposal(&prop, msg.as_bytes()).unwrap();
    let plain = ecies_ed25519::decrypt(&pool_secret(), &sealed.ciphertext).unwrap();
    let v: serde_json::Value = serde_json::from_slice(&plain).unwrap();
    assert_eq!(v.get("obj_id").and_then(|x| x.as_u64()), Some(7));
    let obj: Vec<u8> = v
        .get("obj")
        .and_then(|x| x.as_array())
        .unwrap()
        .iter()
        .map(|b| b.as_u64().unwrap() as u8)
        .collect();
    assert_eq!(obj, b"abc".to_vec());
    assert_eq!(v.get("pool_id").and_then(|x| x.as_str()), Some("P1"));
    assert_eq!(v.get("member_id").and_then(|x| x.as_str()), Some("M1"));
    assert_eq!(v.get("algo").and_then(|x| x.as_str()), Some("Grid2d"));
}

fn member_public(seed_hex: &str) -> schnorrkel::PublicKey {
    let seed = hex::decode(seed_hex).unwrap();
    schnorrkel::MiniSecretKey::from_bytes(&seed)
        .unwrap()
        .expand_to_public(schnorrkel::ExpansionMode::Ed25519)
}

#[test]
fn sign_verifies_under_member_key() {
    let ctx = context();
    let sig = schnorrkel::Signature::from_bytes(&ctx.sign(b"hello")).unwrap();
    let public = member_public(&KEY_HEX[2..]);
    assert!(public.verify_simple(b"Mining pool", b"hello", &sig).is_ok());
    assert!(public.verify_simple(b"Mining pool", b"hellO", &sig).is_err());
    assert!(public.verify_simple(b"Other", b"hello", &sig).is_err());
}

#[test]
fn key_prefix_does_not_change_key() {
    let with = MiningContext::new(grid2d(), "P".into(), "M".into(), KEY_HEX).unwrap();
    let without = MiningContext::new(grid2d(), "P".into(), "M".into(), &KEY_HEX[2..]).unwrap();
    let public = member_public(&KEY_HEX[2..]);
    for ctx in [with, without] {
        let sig = schnorrkel::Signature::from_bytes(&ctx.sign(b"m")).unwrap();
        assert!(public.verify_simple(b"Mining pool", b"m", &sig).is_ok());
    }
}

#[test]
fn key_with_inner_0x_is_stripped_there() {
    let key = format!("{}0x{}", "22".repeat(16), "22".repeat(16));
    let ctx = MiningContext::new(grid2d(), "P".into(), "M".into(), &key).unwrap();
    let sig = schnorrkel::Signature::from_bytes(&ctx.sign(b"m")).unwrap();
    let public = member_public(&"22".repeat(32));
    assert!(public.verify_simple(b"Mining pool", b"m", &sig).is_ok());
}
