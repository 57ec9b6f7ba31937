use smwc2wav::text::{alphamap, alphavec_to_map, q_str, reencoded_name_for, strclamp, wav_name_for};

const TINY_CAPS_MAPPING: [char; 26] = [
    'ᴀ', 'ʙ', 'ᴄ', 'ᴅ', 'ᴇ', 'ғ', 'ɢ', 'ʜ', 'ɪ', 'ᴊ', 'ᴋ', 'ʟ', 'ᴍ', 'ɴ', 'ᴏ', 'ᴘ', 'ꞯ', 'ʀ',
    's', 'ᴛ', 'ᴜ', 'ᴠ', 'ᴡ', 'x', 'ʏ', 'ᴢ',
];

#[test]
fn q_str_fills_active_then_inactive() {
    assert_eq!(q_str(&'★', &'☆', 3, 5), "★★★☆☆");
    assert_eq!(q_str(&'#', &'-', 0, 4), "----");
    assert_eq!(q_str(&'#', &'-', 4, 4), "####");
    assert_eq!(q_str(&'#', &'-', 0, 0), "");
}

#[test]
fn strclamp_cuts_lines_at_the_maximum() {
    assert_eq!(strclamp("abcde", 2), "ab\ncd\ne\n");
    assert_eq!(strclamp("abc", 5), "abc\n");
    // an exact multiple leaves a final empty line
    assert_eq!(strclamp("abcdef", 2), "ab\ncd\nef\n\n");
    assert_eq!(strclamp("ab", 2), "ab\n\n");
    assert_eq!(strclamp("", 3), "\n");
}

#[test]
fn alphamap_applies_defined_mappings_and_keeps_the_rest() {
    let mapper = alphavec_to_map(TINY_CAPS_MAPPING);
    assert_eq!(alphamap("abz", &mapper), "ᴀʙᴢ");
    assert_eq!(alphamap("Hello, x!", &mapper), "Hᴇʟʟᴏ, x!");
    assert_eq!(alphamap("123 ABC", &mapper), "123 ABC");
    assert_eq!(alphamap("", &mapper), "");
}

#[test]
fn alphavec_to_map_covers_the_alphabet() {
    let mapper = alphavec_to_map(TINY_CAPS_MAPPING);
    assert_eq!(mapper.get('a'), Some('ᴀ'));
    assert_eq!(mapper.get('z'), Some('ᴢ'));
    assert_eq!(mapper.get('s'), Some('s'));
    assert_eq!(mapper.get('A'), None);
    assert_eq!(mapper.get('-'), None);
}

#[test]
fn stage_file_names_swap_the_extension() {
    assert_eq!(wav_name_for("tune.spc"), "tune.wav");
    assert_eq!(wav_name_for("a b c.spc"), "a b c.wav");
    assert_eq!(reencoded_name_for("tune.wav", "flac"), "tune.flac");
    assert_eq!(reencoded_name_for("tune.wav", "ogg"), "tune.ogg");
}
