use image_convert::decimal::{decimal, push_decimal};
use image_convert::encode::{write_avif_command, write_jpeg_command, write_optimise_command};
use image_convert::options::{effective_depth, effective_quality, effective_speed};
use image_convert::{
    encode_avif, encode_jpeg, AVIFOptions, AvifSettings, EncodeError, SizeControl,
};

fn avif_options() -> AVIFOptions {
    AVIFOptions { quality: None, speed: None, depth: None, lossless: None, target_size: None }
}

fn avif_line(options: &AVIFOptions) -> String {
    let commands = encode_avif("/tmp/in.png", "/tmp/out.avif", options).unwrap();
    assert_eq!(commands.len(), 1);
    commands[0].clone()
}

#[test]
fn decimal_writes_small_numbers() {
    assert_eq!(decimal(0), "0");
    assert_eq!(decimal(7), "7");
    assert_eq!(decimal(9), "9");
    assert_eq!(decimal(10), "10");
    assert_eq!(decimal(75), "75");
    assert_eq!(decimal(100), "100");
    assert_eq!(decimal(255), "255");
    assert_eq!(decimal(1001), "1001");
}

#[test]
fn decimal_writes_the_largest_number() {
    assert_eq!(decimal(u64::MAX), "18446744073709551615");
    assert_eq!(decimal(10_000_000_000_000_000_000), "10000000000000000000");
}

#[test]
fn decimal_agrees_with_the_standard_notation() {
    let mut n: u64 = 0;
    while n < 3000 {
        assert_eq!(decimal(n), n.to_string());
        n += 1;
    }
    let mut m: u64 = 1;
    while m < u64::MAX / 7 {
        assert_eq!(decimal(m), m.to_string());
        assert_eq!(decimal(m - 1), (m - 1).to_string());
        m *= 7;
    }
}

#[test]
fn push_decimal_appends() {
    let mut text = String::from("n=");
    push_decimal(&mut text, 4096);
    assert_eq!(text, "n=4096");
    push_decimal(&mut text, 0);
    assert_eq!(text, "n=40960");
}

#[test]
fn effective_quality_defaults_to_75() {
    assert_eq!(effective_quality(None), Ok(75));
}

#[test]
fn effective_quality_keeps_what_is_accepted() {
    assert_eq!(effective_quality(Some(0)), Ok(0));
    assert_eq!(effective_quality(Some(50)), Ok(50));
    assert_eq!(effective_quality(Some(100)), Ok(100));
}

#[test]
fn effective_quality_refuses_above_100() {
    assert_eq!(effective_quality(Some(101)), Err(EncodeError::InvalidQuality));
    assert_eq!(effective_quality(Some(255)), Err(EncodeError::InvalidQuality));
}

#[test]
fn effective_speed_is_capped_at_10() {
    assert_eq!(effective_speed(None), 6);
    assert_eq!(effective_speed(Some(0)), 0);
    assert_eq!(effective_speed(Some(6)), 6);
    assert_eq!(effective_speed(Some(10)), 10);
    assert_eq!(effective_speed(Some(11)), 10);
    assert_eq!(effective_speed(Some(255)), 10);
}

#[test]
fn effective_depth_is_8_10_or_12() {
    assert_eq!(effective_depth(None), 8);
    assert_eq!(effective_depth(Some(8)), 8);
    assert_eq!(effective_depth(Some(10)), 10);
    assert_eq!(effective_depth(Some(12)), 12);
    assert_eq!(effective_depth(Some(0)), 8);
    assert_eq!(effective_depth(Some(9)), 8);
    assert_eq!(effective_depth(Some(11)), 8);
    assert_eq!(effective_depth(Some(13)), 8);
    assert_eq!(effective_depth(Some(16)), 8);
    assert_eq!(effective_depth(Some(255)), 8);
}

#[test]
fn every_depth_but_10_and_12_gives_8() {
    let mut d: u8 = 0;
    loop {
        let expected = if d == 10 || d == 12 { d } else { 8 };
        assert_eq!(effective_depth(Some(d)), expected);
        if d == u8::MAX {
            break;
        }
        d += 1;
    }
}

#[test]
fn every_speed_above_10_gives_10() {
    let mut s: u8 = 11;
    loop {
        assert_eq!(effective_speed(Some(s)), 10);
        if s == u8::MAX {
            break;
        }
        s += 1;
    }
}

#[test]
fn encode_error_message() {
    assert_eq!(EncodeError::InvalidQuality.message(), "Invalid quality value");
}

#[test]
fn resolve_defaults() {
    assert_eq!(
        avif_options().resolve(),
        Ok(AvifSettings { speed: 6, depth: 8, size_control: SizeControl::Quality(75) })
    );
}

#[test]
fn resolve_lossless_overrides_target_size_and_quality() {
    let options = AVIFOptions {
        quality: Some(40),
        speed: Some(3),
        depth: Some(10),
        lossless: Some(true),
        target_size: Some(5000),
    };
    assert_eq!(
        options.resolve(),
        Ok(AvifSettings { speed: 3, depth: 10, size_control: SizeControl::Lossless })
    );
}

#[test]
fn resolve_target_size_overrides_quality() {
    let options = AVIFOptions { quality: Some(40), target_size: Some(5000), ..avif_options() };
    assert_eq!(options.resolve().unwrap().size_control, SizeControl::TargetSize(5000));
    let not_lossless = AVIFOptions { lossless: Some(false), ..options };
    assert_eq!(not_lossless.resolve().unwrap().size_control, SizeControl::TargetSize(5000));
}

#[test]
fn resolve_quality_is_the_fallback() {
    let options = AVIFOptions { quality: Some(40), lossless: Some(false), ..avif_options() };
    assert_eq!(options.resolve().unwrap().size_control, SizeControl::Quality(40));
}

#[test]
fn resolve_refuses_quality_above_100_even_when_lossless() {
    let options = AVIFOptions { quality: Some(101), lossless: Some(true), ..avif_options() };
    assert_eq!(options.resolve(), Err(EncodeError::InvalidQuality));
    let with_target = AVIFOptions { quality: Some(200), target_size: Some(1), ..avif_options() };
    assert_eq!(with_target.resolve(), Err(EncodeError::InvalidQuality));
}

#[test]
fn jpeg_command_line() {
    assert_eq!(
        write_jpeg_command("/tmp/in.png", "/tmp/out.jpeg", 50),
        "magick /tmp/in.png ppm:- | cjpeg -outfile /tmp/out.jpeg -quality 50"
    );
    assert_eq!(write_optimise_command("/tmp/out.jpeg"), "jpegoptim /tmp/out.jpeg");
}

#[test]
fn avif_command_line_for_each_size_control() {
    let lossless = AvifSettings { speed: 10, depth: 12, size_control: SizeControl::Lossless };
    assert_eq!(write_avif_command("in", "out", &lossless), "avifenc -o out -s 10 -d 12 -l in");
    let target = AvifSettings { speed: 0, depth: 8, size_control: SizeControl::TargetSize(123456) };
    assert_eq!(
        write_avif_command("in", "out", &target),
        "avifenc -o out -s 0 -d 8 --target-size 123456 in"
    );
    let quality = AvifSettings { speed: 6, depth: 10, size_control: SizeControl::Quality(0) };
    assert_eq!(write_avif_command("in", "out", &quality), "avifenc -o out -s 6 -d 10 -q 0 in");
}

#[test]
fn encode_jpeg_gives_two_commands_in_order() {
    let commands = encode_jpeg("/tmp/a", "/tmp/b", Some(50)).unwrap();
    assert_eq!(
        commands,
        vec![
            "magick /tmp/a ppm:- | cjpeg -outfile /tmp/b -quality 50".to_string(),
            "jpegoptim /tmp/b".to_string(),
        ]
    );
}

#[test]
fn encode_jpeg_default_quality() {
    let commands = encode_jpeg("a", "b", None).unwrap();
    assert_eq!(commands[0], "magick a ppm:- | cjpeg -outfile b -quality 75");
}

#[test]
fn encode_jpeg_quality_bounds() {
    assert_eq!(
        encode_jpeg("a", "b", Some(0)).unwrap()[0],
        "magick a ppm:- | cjpeg -outfile b -quality 0"
    );
    assert_eq!(
        encode_jpeg("a", "b", Some(100)).unwrap()[0],
        "magick a ppm:- | cjpeg -outfile b -quality 100"
    );
    assert_eq!(encode_jpeg("a", "b", Some(101)), Err(EncodeError::InvalidQuality));
    assert_eq!(encode_jpeg("a", "b", Some(255)), Err(EncodeError::InvalidQuality));
}

#[test]
fn encode_avif_defaults() {
    assert_eq!(avif_line(&avif_options()), "avifenc -o /tmp/out.avif -s 6 -d 8 -q 75 /tmp/in.png");
}

#[test]
fn encode_avif_unknown_depth_is_8() {
    for depth in [0u8, 1, 7, 9, 11, 13, 16, 255] {
        let options = AVIFOptions { depth: Some(depth), ..avif_options() };
        assert_eq!(avif_line(&options), "avifenc -o /tmp/out.avif -s 6 -d 8 -q 75 /tmp/in.png");
    }
}

#[test]
fn encode_avif_keeps_depth_10_and_12() {
    let ten = AVIFOptions { depth: Some(10), ..avif_options() };
    assert_eq!(avif_line(&ten), "avifenc -o /tmp/out.avif -s 6 -d 10 -q 75 /tmp/in.png");
    let twelve = AVIFOptions { depth: Some(12), ..avif_options() };
    assert_eq!(avif_line(&twelve), "avifenc -o /tmp/out.avif -s 6 -d 12 -q 75 /tmp/in.png");
}

#[test]
fn encode_avif_speed_above_10_is_10() {
    for speed in [11u8, 12, 100, 255] {
        let options = AVIFOptions { speed: Some(speed), ..avif_options() };
        assert_eq!(avif_line(&options), "avifenc -o /tmp/out.avif -s 10 -d 8 -q 75 /tmp/in.png");
    }
}

#[test]
fn encode_avif_keeps_speed_up_to_10() {
    let zero = AVIFOptions { speed: Some(0), ..avif_options() };
    assert_eq!(avif_line(&zero), "avifenc -o /tmp/out.avif -s 0 -d 8 -q 75 /tmp/in.png");
    let ten = AVIFOptions { speed: Some(10), ..avif_options() };
    assert_eq!(avif_line(&ten), "avifenc -o /tmp/out.avif -s 10 -d 8 -q 75 /tmp/in.png");
}

#[test]
fn encode_avif_lossless_wins_over_target_size() {
    let options = AVIFOptions {
        quality: Some(30),
        lossless: Some(true),
        target_size: Some(4096),
        ..avif_options()
    };
    assert_eq!(avif_line(&options), "avifenc -o /tmp/out.avif -s 6 -d 8 -l /tmp/in.png");
}

#[test]
fn encode_avif_target_size_wins_over_quality() {
    let options = AVIFOptions { quality: Some(30), target_size: Some(4096), ..avif_options() };
    assert_eq!(
        avif_line(&options),
        "avifenc -o /tmp/out.avif -s 6 -d 8 --target-size 4096 /tmp/in.png"
    );
    let not_lossless = AVIFOptions { lossless: Some(false), ..options };
    assert_eq!(
        avif_line(&not_lossless),
        "avifenc -o /tmp/out.avif -s 6 -d 8 --target-size 4096 /tmp/in.png"
    );
}

#[test]
fn encode_avif_quality_without_the_others() {
    let options = AVIFOptions { quality: Some(30), lossless: Some(false), ..avif_options() };
    assert_eq!(avif_line(&options), "avifenc -o /tmp/out.avif -s 6 -d 8 -q 30 /tmp/in.png");
}

#[test]
fn encode_avif_holds_one_size_control_flag() {
    let all = AVIFOptions {
        quality: Some(30),
        speed: Some(4),
        depth: Some(12),
        lossless: Some(true),
        target_size: Some(4096),
    };
    let line = avif_line(&all);
    assert!(line.contains(" -l "));
    assert!(!line.contains("--target-size"));
    assert!(!line.contains(" -q "));
    let target = AVIFOptions { lossless: None, ..all };
    let line = avif_line(&target);
    assert!(line.contains(" --target-size 4096 "));
    assert!(!line.contains(" -l "));
    assert!(!line.contains(" -q "));
}

#[test]
fn encode_avif_largest_target_size() {
    let options = AVIFOptions { target_size: Some(u64::MAX), ..avif_options() };
    assert_eq!(
        avif_line(&options),
        "avifenc -o /tmp/out.avif -s 6 -d 8 --target-size 18446744073709551615 /tmp/in.png"
    );
}

#[test]
fn encode_avif_refuses_quality_above_100() {
    let options = AVIFOptions { quality: Some(101), ..avif_options() };
    assert_eq!(encode_avif("a", "b", &options), Err(EncodeError::InvalidQuality));
    let lossless = AVIFOptions { quality: Some(255), lossless: Some(true), ..avif_options() };
    assert_eq!(encode_avif("a", "b", &lossless), Err(EncodeError::InvalidQuality));
}
