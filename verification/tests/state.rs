use blueshift_escrow::errors::ProgramError;
use blueshift_escrow::pubkey::Pubkey;
use blueshift_escrow::state::{read_pubkey, read_u64, Escrow};

fn key(n: u8) -> Pubkey {
    let mut k = [0u8; 32];
    k[0] = n;
    k[31] = 0x5a;
    k
}

fn sample() -> Escrow {
    Escrow {
        seed: 0x0102030405060708,
        maker: key(1),
        mint_a: key(3),
        mint_b: key(4),
        receive: 1000,
        bump: 254,
    }
}

#[test]
fn a_record_has_113_bytes_in_the_order_of_its_fields() {
    let bytes = sample().to_bytes();
    assert_eq!(bytes.len(), 113);
    assert_eq!(Escrow::LEN, 113);
    assert_eq!(&bytes[0..8], &[8, 7, 6, 5, 4, 3, 2, 1]);
    assert_eq!(&bytes[8..40], &key(1));
    assert_eq!(&bytes[40..72], &key(3));
    assert_eq!(&bytes[72..104], &key(4));
    assert_eq!(&bytes[104..112], &[0xe8, 0x03, 0, 0, 0, 0, 0, 0]);
    assert_eq!(bytes[112], 254);
}

#[test]
fn load_reads_what_to_bytes_wrote() {
    let record = sample();
    assert_eq!(Escrow::load(&record.to_bytes()), Ok(record));
    let extreme = Escrow {
        seed: u64::MAX,
        maker: [0xff; 32],
        mint_a: [0; 32],
        mint_b: [0x80; 32],
        receive: 0,
        bump: 0,
    };
    assert_eq!(Escrow::load(&extreme.to_bytes()), Ok(extreme));
}

#[test]
fn to_bytes_writes_what_load_read() {
    let bytes: Vec<u8> = (0..113u32).map(|i| (i * 7 + 3) as u8).collect();
    let record = Escrow::load(&bytes).unwrap();
    assert_eq!(record.to_bytes(), bytes);
    assert_eq!(record.seed, u64::from_le_bytes(bytes[0..8].try_into().unwrap()));
    assert_eq!(record.receive, u64::from_le_bytes(bytes[104..112].try_into().unwrap()));
    assert_eq!(record.bump, bytes[112]);
}

#[test]
fn load_refuses_every_other_size() {
    let bytes = sample().to_bytes();
    assert_eq!(Escrow::load(&bytes[..112]), Err(ProgramError::InvalidAccountData));
    assert_eq!(Escrow::load(&[]), Err(ProgramError::InvalidAccountData));
    let mut longer = bytes.clone();
    longer.push(0);
    assert_eq!(Escrow::load(&longer), Err(ProgramError::InvalidAccountData));
}

#[test]
fn numbers_and_addresses_are_read_where_they_start() {
    let bytes: Vec<u8> = (0..64u8).collect();
    assert_eq!(read_u64(&bytes, 0), 0x0706050403020100);
    assert_eq!(read_u64(&bytes, 56), 0x3f3e3d3c3b3a3938);
    let expected: Vec<u8> = (32..64u8).collect();
    assert_eq!(read_pubkey(&bytes, 32).to_vec(), expected);
}
