use quasar::keypair::{generate_program_keypair, program_keypair};

const SECRET: &str = "9d61b19deffd5a60ba844af492ec2cc44449c5697b326919703bac031cae7f60";

fn hex(s: &str) -> Vec<u8> {
    (0..s.len()).step_by(2).map(|i| u8::from_str_radix(&s[i..i + 2], 16).unwrap()).collect()
}

#[test]
fn keypair_of_known_secret() {
    let k = program_keypair(&hex(SECRET)).unwrap();
    assert_eq!(k.program_id, "FVen3X669xLzsi6N2V91DoiyzHzg1uAgqiT8jZ9nS96Z");
    assert_eq!(
        k.keypair_json,
        "[157,97,177,157,239,253,90,96,186,132,74,244,146,236,44,196,68,73,197,105,123,50,105,25,112,59,172,3,28,174,127,96,215,90,152,1,130,177,10,183,213,75,254,211,201,100,7,58,14,225,114,243,218,166,35,37,175,2,26,104,247,7,81,26]"
    );
}

#[test]
fn generated_keypair_is_well_formed() {
    let k = generate_program_keypair().unwrap();
    let numbers: Vec<u8> = k.keypair_json[1..k.keypair_json.len() - 1]
        .split(',')
        .map(|n| n.parse().unwrap())
        .collect();
    assert_eq!(numbers.len(), 64);
    let again = program_keypair(&numbers[..32].to_vec()).unwrap();
    assert_eq!(again.program_id, k.program_id);
    assert_eq!(again.keypair_json, k.keypair_json);
    assert!(k.program_id.chars().all(|c| c.is_ascii_alphanumeric() && !"0OIl".contains(c)));
}
