use banano_qr::{generate_qr_code, Error};

fn check_rendered(data: &str) -> (u32, u32) {
    let q = generate_qr_code(data).unwrap();
    let img = &q.image;
    assert_eq!(img.width, img.height);
    assert_eq!(img.width, (q.modules + 8) * 8);
    assert!(q.modules >= 21 && q.modules <= 177 && (q.modules - 17) % 4 == 0);
    assert_eq!(img.pixels.len(), 4 * img.width as usize * img.height as usize);
    for px in img.pixels.chunks(4) {
        assert!(px == [0, 0, 0, 255] || px == [255, 255, 255, 255]);
    }
    (q.modules, img.width)
}

#[test]
fn short_payload_uses_version_one() {
    assert_eq!(check_rendered("a"), (21, 232));
}

#[test]
fn payment_payload_is_square_and_two_toned() {
    let (modules, width) = check_rendered("ban:ban_1test?amount=1.5");
    assert!(modules > 21);
    assert_eq!(width, (modules + 8) * 8);
}

#[test]
fn longer_payload_gives_larger_image() {
    let (m1, w1) = check_rendered("ban:ban_1test?amount=1.5");
    let long = "ban:".to_string() + &"x".repeat(400) + "?amount=1.5";
    let (m2, w2) = check_rendered(&long);
    assert!(m1 < m2);
    assert!(w1 < w2);
}

#[test]
fn quiet_zone_is_light() {
    let q = generate_qr_code("hello").unwrap();
    assert_eq!(&q.image.pixels[0..4], &[255, 255, 255, 255]);
    // the top-left finder pattern starts after the 32-pixel quiet zone
    let w = q.image.width as usize;
    let i = 4 * (32 * w + 32);
    assert_eq!(&q.image.pixels[i..i + 4], &[0, 0, 0, 255]);
}

#[test]
fn oversized_payload_is_rejected() {
    let data = "x".repeat(5000);
    assert_eq!(generate_qr_code(&data).err(), Some(Error::Unencodable));
}

#[test]
fn modules_are_uniform_blocks() {
    let q = generate_qr_code("ban:ban_1test?amount=1.5").unwrap();
    let w = q.image.width as usize;
    for y in 0..w {
        for x in 0..w {
            let i = 4 * (y * w + x);
            let j = 4 * ((y / 8 * 8) * w + x / 8 * 8);
            assert_eq!(&q.image.pixels[i..i + 4], &q.image.pixels[j..j + 4]);
        }
    }
}

#[test]
fn same_payload_gives_same_image() {
    let a = generate_qr_code("ban:ban_1test?amount=1.5").unwrap();
    let b = generate_qr_code("ban:ban_1test?amount=1.5").unwrap();
    assert_eq!(a.modules, b.modules);
    assert_eq!((a.image.width, a.image.height), (b.image.width, b.image.height));
    assert_eq!(a.image.pixels, b.image.pixels);
}
