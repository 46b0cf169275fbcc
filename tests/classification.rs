use file_format::FileFormat;

/// A buffer of `len` zero bytes with each pattern written at its offset.
fn buffer_with(len: usize, parts: &[(usize, &[u8])]) -> Vec<u8> {
    let mut b = vec![0u8; len];
    for (offset, pattern) in parts {
        b[*offset..*offset + pattern.len()].copy_from_slice(pattern);
    }
    b
}

fn assert_format(bytes: &[u8], media_type: &str, extension: &str) {
    let format = FileFormat::from_bytes(bytes);
    assert_eq!(format.media_type(), media_type);
    assert_eq!(format.extension(), extension);
}

const PNG_HEADER: &[u8] = b"\x89\x50\x4E\x47\x0D\x0A\x1A\x0A";

#[test]
fn png_header_alone() {
    assert_format(PNG_HEADER, "image/png", "png");
}

#[test]
fn png_header_with_actl_chunk_is_apng() {
    let b = buffer_with(0x25 + 4, &[(0, PNG_HEADER), (0x25, b"acTL")]);
    assert_format(&b, "image/apng", "apng");
}

#[test]
fn apng_token_cut_short_falls_back_to_png() {
    let b = buffer_with(0x25 + 4 - 1, &[(0, PNG_HEADER), (0x25, b"acT")]);
    assert_format(&b, "image/png", "png");
}

#[test]
fn riff_wave_is_wav() {
    assert_format(b"RIFF\x24\x08\x00\x00WAVEfmt ", "audio/vnd.wave", "wav");
}

#[test]
fn riff_webp_is_webp() {
    assert_format(b"RIFF\x00\x00\x00\x00WEBPVP8 ", "image/webp", "webp");
}

#[test]
fn riff_avi_is_avi() {
    assert_format(b"RIFF\x10\x20\x30\x40\x41\x56\x49\x20LIST", "video/avi", "avi");
}

#[test]
fn riff_with_unknown_form_is_unrecognised() {
    assert_format(b"RIFF\x00\x00\x00\x00XXXX", "application/octet-stream", "bin");
}

#[test]
fn gif87a_is_gif() {
    assert_format(b"GIF87a", "image/gif", "gif");
}

#[test]
fn gif89a_is_gif() {
    assert_format(b"GIF89a", "image/gif", "gif");
}

#[test]
fn gif_with_unknown_version_is_unrecognised() {
    assert_format(b"GIF86a", "application/octet-stream", "bin");
}

#[test]
fn zip_header_alone_is_zip() {
    let b = buffer_with(44, &[(0, b"PK\x03\x04")]);
    assert_format(&b, "application/zip", "zip");
}

#[test]
fn zip_with_opendocument_mimetype_is_odt() {
    let b = buffer_with(
        77,
        &[
            (0, b"PK\x03\x04"),
            (30, b"mimetype"),
            (38, b"application/vnd.oasis.opendocument.text"),
        ],
    );
    assert_format(&b, "application/vnd.oasis.opendocument.text", "odt");
}

#[test]
fn zip_with_epub_mimetype_is_epub() {
    let b = buffer_with(
        58,
        &[(0, b"PK\x03\x04"), (30, b"mimetype"), (38, b"application/epub+zip")],
    );
    assert_format(&b, "application/epub+zip", "epub");
}

#[test]
fn ogg_with_vorbis_header_is_ogg_audio() {
    let b = buffer_with(35, &[(0, b"OggS"), (29, b"vorbis")]);
    assert_format(&b, "audio/ogg", "ogg");
}

#[test]
fn ogg_without_known_codec_is_ogg_container() {
    let b = buffer_with(44, &[(0, b"OggS")]);
    assert_format(&b, "application/ogg", "ogx");
}

#[test]
fn iso_volume_descriptor_deep_in_buffer() {
    let b = buffer_with(0x8001 + 5, &[(0x8001, b"CD001")]);
    assert_format(&b, "application/x-iso9660-image", "iso");
}

#[test]
fn iso_volume_descriptor_one_byte_short() {
    let b = buffer_with(0x8001 + 5 - 1, &[(0x8001, b"CD00")]);
    assert_format(&b, "application/octet-stream", "bin");
}

#[test]
fn iso_volume_descriptor_at_last_offset_fills_the_window() {
    let b = buffer_with(FileFormat::MAX_BYTES as usize, &[(0x9001, b"CD001")]);
    assert_format(&b, "application/x-iso9660-image", "iso");
}

#[test]
fn jxl_short_buffer_matches_through_other_alternative() {
    let b = buffer_with(11, &[(0, b"\xFF\x0A")]);
    assert_format(&b, "image/jxl", "jxl");
}

#[test]
fn transport_stream_second_alternative() {
    let b = buffer_with(197, &[(4, b"\x47"), (196, b"\x47")]);
    assert_format(&b, "video/mp2t", "m2ts");
}

#[test]
fn jpeg_quantization_table_marker() {
    assert_format(b"\xFF\xD8\xFF\xDB\x00", "image/jpeg", "jpg");
}

#[test]
fn pdf_header() {
    assert_format(b"%PDF-1.7", "application/pdf", "pdf");
}

#[test]
fn mz_header_is_executable() {
    assert_format(b"MZ\x90\x00", "application/x-msdownload", "exe");
}

#[test]
fn empty_buffer_is_default() {
    let format = FileFormat::from_bytes(&[]);
    assert_eq!(format, FileFormat::default());
    assert_format(&[], "application/octet-stream", "bin");
}

#[test]
fn zeroed_buffer_is_default() {
    let format = FileFormat::from_bytes(&[0; 1000]);
    assert_eq!(format, FileFormat::default());
    assert_eq!(format.media_type(), "application/octet-stream");
    assert_eq!(format.extension(), "bin");
}

#[test]
fn zeroed_buffers_of_many_lengths_are_default() {
    for n in [1usize, 2, 4, 8, 12, 59, 0x104, 0x8001, FileFormat::MAX_BYTES as usize] {
        assert_format(&vec![0u8; n], "application/octet-stream", "bin");
    }
}

#[test]
fn repeated_classification_gives_identical_results() {
    let b = buffer_with(41, &[(0, PNG_HEADER), (0x25, b"acTL")]);
    let first = FileFormat::from_bytes(&b);
    let second = FileFormat::from_bytes(&b);
    assert_eq!(first, second);
}

#[test]
fn single_byte_buffers_are_unrecognised() {
    for byte in 0..=255u8 {
        assert_format(&[byte], "application/octet-stream", "bin");
    }
}

#[test]
fn mp4_brand_among_many_alternatives() {
    let b = buffer_with(12, &[(4, b"ftypisom")]);
    assert_format(&b, "video/mp4", "mp4");
}

#[test]
fn tar_header_at_offset() {
    let b = buffer_with(0x200, &[(257, b"ustar\x0000")]);
    assert_format(&b, "application/x-tar", "tar");
}

#[test]
fn game_boy_color_flag_is_more_specific_than_game_boy() {
    let logo: &[u8] = b"\xCE\xED\x66\x66\xCC\x0D\x00\x0B";
    let color = buffer_with(0x150, &[(0x104, logo), (0x143, b"\xC0")]);
    assert_format(&color, "application/x-gameboy-color-rom", "gbc");
    let plain = buffer_with(0x150, &[(0x104, logo)]);
    assert_format(&plain, "application/x-gameboy-rom", "gb");
}

#[test]
fn default_format_names_binary_data() {
    let format = FileFormat::default();
    assert_eq!(format.media_type(), "application/octet-stream");
    assert_eq!(format.extension(), "bin");
}

#[test]
fn new_keeps_media_type_and_extension() {
    let format = FileFormat::new("image/png", "png");
    assert_eq!(format.media_type(), "image/png");
    assert_eq!(format.extension(), "png");
    assert_eq!(format.duplicate(), format);
}

#[test]
fn bytes_past_max_bytes_do_not_change_the_format() {
    let max = FileFormat::MAX_BYTES as usize;
    let mut long = buffer_with(max + 100, &[(0x8801, b"CD001")]);
    long[max..].copy_from_slice(&[0x47; 100]);
    let whole = FileFormat::from_bytes(&long);
    let head = FileFormat::from_bytes(&long[..max]);
    assert_eq!(whole, head);
    assert_eq!(head.extension(), "iso");
}

#[test]
fn compress_header_has_lower_case_extension() {
    assert_format(b"\x1F\x9D", "application/x-compress", "z");
    assert_format(b"\x1F\xA0\x00", "application/x-compress", "z");
}

#[test]
fn riff_forms_with_any_size_field_up_to_sixty_seven_bytes() {
    for (form, media_type, extension) in [
        (b"WAVE", "audio/vnd.wave", "wav"),
        (b"WEBP", "image/webp", "webp"),
        (b"AVI ", "video/avi", "avi"),
    ] {
        for len in [12usize, 40, 67] {
            let mut b = buffer_with(len, &[(0, b"RIFF"), (8, form)]);
            b[4..8].copy_from_slice(b"ftyp");
            for byte in b.iter_mut().skip(12) {
                *byte = 0xA5;
            }
            assert_format(&b, media_type, extension);
        }
    }
}
