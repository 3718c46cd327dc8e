use sha1::sha1;

#[test]
fn it_works() {
    let input = "bom dia";
    let aux: Vec<u8> = vec![
        101, 70, 62, 230, 100, 171, 181, 195, 91, 218, 39, 19, 179, 148, 203, 251, 10, 157, 243,
        165,
    ];
    let mut expect: [u8; 20] = [0u8; 20];
    expect.copy_from_slice(&aux);
    let result = sha1(input.as_bytes());
    assert_eq!(result, expect);
}

#[test]
fn empty_input() {
    let expect: [u8; 20] = [
        218, 57, 163, 238, 94, 107, 75, 13, 50, 85, 191, 239, 149, 96, 24, 144, 175, 216, 7, 9,
    ];
    assert_eq!(sha1(&[]), expect);
}

#[test]
fn abc_input() {
    let expect: [u8; 20] = [
        169, 153, 62, 54, 71, 6, 129, 106, 186, 62, 37, 113, 120, 80, 194, 108, 156, 208, 216, 157,
    ];
    assert_eq!(sha1("abc".as_bytes()), expect);
}

// 55 bytes is the longest message whose padding stays inside one block.
#[test]
fn boundary_55_bytes() {
    let input = vec![b'a'; 55];
    let expect: [u8; 20] = [
        193, 200, 187, 220, 34, 121, 110, 40, 192, 225, 81, 99, 210, 8, 153, 182, 86, 33, 214, 90,
    ];
    assert_eq!(sha1(&input), expect);
}

// At 56 bytes the length field no longer fits and padding spills into a
// second block.
#[test]
fn boundary_56_bytes() {
    let input = vec![b'a'; 56];
    let expect: [u8; 20] = [
        194, 219, 51, 15, 96, 131, 133, 76, 153, 212, 181, 191, 182, 232, 242, 159, 32, 27, 230,
        153,
    ];
    assert_eq!(sha1(&input), expect);
}

// A message of exactly one block pads into a whole second block.
#[test]
fn boundary_64_bytes() {
    let input = vec![b'a'; 64];
    let expect: [u8; 20] = [
        0, 152, 186, 130, 75, 92, 22, 66, 123, 215, 161, 18, 42, 90, 68, 42, 37, 236, 100, 77,
    ];
    assert_eq!(sha1(&input), expect);
}

#[test]
fn digest_is_20_bytes() {
    assert_eq!(sha1(&[]).len(), 20);
    assert_eq!(sha1("abc".as_bytes()).len(), 20);
    assert_eq!(sha1(&vec![0u8; 1000]).len(), 20);
}

#[test]
fn repeated_calls_are_identical() {
    let inputs: Vec<Vec<u8>> = vec![
        Vec::new(),
        "abc".as_bytes().to_vec(),
        "bom dia".as_bytes().to_vec(),
        vec![0u8; 200],
        (0u8..=255).collect(),
    ];
    for input in &inputs {
        let first = sha1(input);
        let second = sha1(input);
        assert_eq!(first, second);
    }
}

#[test]
fn single_bit_flip_changes_digest() {
    let samples: Vec<Vec<u8>> = vec![
        "abc".as_bytes().to_vec(),
        "bom dia".as_bytes().to_vec(),
        vec![b'a'; 55],
        vec![b'a'; 56],
        vec![0u8; 64],
    ];
    for sample in &samples {
        let base = sha1(sample);
        for byte in 0..sample.len() {
            for bit in 0..8 {
                let mut flipped = sample.clone();
                flipped[byte] ^= 1u8 << bit;
                assert_ne!(sha1(&flipped), base);
            }
        }
    }
}
