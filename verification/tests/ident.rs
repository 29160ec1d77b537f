use vollibrespot::ident::cover_to_base16;
use vollibrespot::ident::AudioType;
use vollibrespot::ident::MediaId;

fn id(id: u128, audio_type: AudioType) -> MediaId {
    MediaId { id, audio_type }
}

#[test]
fn ids_are_shown_in_base_62() {
    let cases = [
        (238762092608182713602505436543891614649, "5sWHDYs0csV6RS48xBl0tH"),
        (204841891221366092811751085145916697048, "4GNcXTGWmnZ3ySrqvol3o4"),
        (0, "0000000000000000000000"),
        (61, "000000000000000000000Z"),
        (62, "0000000000000000000010"),
    ];
    for (number, text) in cases {
        assert_eq!(id(number, AudioType::Track).to_base62(), text);
        assert_eq!(id(number, AudioType::Podcast).to_base62(), text);
        assert_eq!(id(number, AudioType::NonPlayable).to_base62(), text);
    }
}

#[test]
fn base_62_digits_give_the_number_back() {
    let digits = "0123456789abcdefghijklmnopqrstuvwxyzABCDEFGHIJKLMNOPQRSTUVWXYZ";
    for number in [1, 35, 36, 3_843, 3_844, 1 << 96, u128::MAX] {
        let text = id(number, AudioType::Track).to_base62();
        assert_eq!(text.len(), 22);
        let mut read: u128 = 0;
        for c in text.chars() {
            read = read * 62 + digits.find(c).unwrap() as u128;
        }
        assert_eq!(read, number);
    }
}

#[test]
fn covers_are_shown_in_base_16() {
    let mut cover = [0u8; 20];
    cover[0] = 0xab;
    cover[1] = 0x05;
    cover[19] = 0xf0;
    assert_eq!(cover_to_base16(cover), "ab050000000000000000000000000000000000f0");
    let mut other = cover;
    other[7] = 1;
    assert_ne!(cover_to_base16(cover), cover_to_base16(other));
}
