use video_service::error::ProcessError;
use video_service::format::{validate_format, DeliveryTarget, Dimensions};

fn shape(width: u32, height: u32) -> Dimensions {
    Dimensions { width, height }
}

#[test]
fn home_takes_landscape_and_square() {
    assert_eq!(validate_format(shape(1920, 1080), "home"), Ok(DeliveryTarget::Home));
    assert_eq!(validate_format(shape(1081, 1080), "home"), Ok(DeliveryTarget::Home));
    assert_eq!(validate_format(shape(1080, 1080), "home"), Ok(DeliveryTarget::Home));
}

#[test]
fn home_turns_portrait_down() {
    assert_eq!(
        validate_format(shape(1080, 1920), "home"),
        Err(ProcessError::InvalidAspectRatio(DeliveryTarget::Home))
    );
    assert_eq!(
        validate_format(shape(1079, 1080), "home"),
        Err(ProcessError::InvalidAspectRatio(DeliveryTarget::Home))
    );
}

#[test]
fn flash_takes_portrait_and_square() {
    assert_eq!(validate_format(shape(1080, 1920), "flash"), Ok(DeliveryTarget::Flash));
    assert_eq!(validate_format(shape(1079, 1080), "flash"), Ok(DeliveryTarget::Flash));
    assert_eq!(validate_format(shape(1080, 1080), "flash"), Ok(DeliveryTarget::Flash));
}

#[test]
fn flash_turns_landscape_down() {
    assert_eq!(
        validate_format(shape(1920, 1080), "flash"),
        Err(ProcessError::InvalidAspectRatio(DeliveryTarget::Flash))
    );
    assert_eq!(
        validate_format(shape(1081, 1080), "flash"),
        Err(ProcessError::InvalidAspectRatio(DeliveryTarget::Flash))
    );
}

#[test]
fn shape_without_an_aspect_ratio_is_taken_by_neither_target() {
    assert_eq!(
        validate_format(shape(0, 0), "home"),
        Err(ProcessError::InvalidAspectRatio(DeliveryTarget::Home))
    );
    assert_eq!(
        validate_format(shape(0, 0), "flash"),
        Err(ProcessError::InvalidAspectRatio(DeliveryTarget::Flash))
    );
    assert_eq!(validate_format(shape(0, 0), "cinema"), Err(ProcessError::UnknownFormat));
}

#[test]
fn shape_with_one_side_of_zero_follows_its_aspect_ratio() {
    assert_eq!(validate_format(shape(5, 0), "home"), Ok(DeliveryTarget::Home));
    assert_eq!(
        validate_format(shape(5, 0), "flash"),
        Err(ProcessError::InvalidAspectRatio(DeliveryTarget::Flash))
    );
    assert_eq!(validate_format(shape(0, 5), "flash"), Ok(DeliveryTarget::Flash));
    assert_eq!(
        validate_format(shape(0, 5), "home"),
        Err(ProcessError::InvalidAspectRatio(DeliveryTarget::Home))
    );
}

#[test]
fn any_other_format_is_unknown() {
    for format in ["", "Home", "FLASH", "home ", " flash", "cinema", "homeflash", "hom"] {
        assert_eq!(validate_format(shape(1920, 1080), format), Err(ProcessError::UnknownFormat));
        assert_eq!(validate_format(shape(1080, 1920), format), Err(ProcessError::UnknownFormat));
        assert_eq!(validate_format(shape(500, 500), format), Err(ProcessError::UnknownFormat));
    }
}

#[test]
fn acceptance_follows_the_aspect_ratio_for_every_small_shape() {
    for width in 0u32..40 {
        for height in 0u32..40 {
            let home = validate_format(shape(width, height), "home");
            let flash = validate_format(shape(width, height), "flash");
            let has_ratio = width > 0 || height > 0;
            assert_eq!(home.is_ok(), has_ratio && width >= height);
            assert_eq!(flash.is_ok(), has_ratio && width <= height);
            assert_eq!(home.is_ok() || flash.is_ok(), has_ratio);
            assert_eq!(home.is_ok() && flash.is_ok(), has_ratio && width == height);
        }
    }
}

#[test]
fn targets_are_named_home_and_flash() {
    assert_eq!(DeliveryTarget::Home.label(), "home");
    assert_eq!(DeliveryTarget::Flash.label(), "flash");
    assert_eq!(DeliveryTarget::from_label("home"), Some(DeliveryTarget::Home));
    assert_eq!(DeliveryTarget::from_label("flash"), Some(DeliveryTarget::Flash));
    assert_eq!(DeliveryTarget::from_label("Flash"), None);
    assert_eq!(DeliveryTarget::from_label(""), None);
}

#[test]
fn every_failure_has_its_message() {
    assert_eq!(
        ProcessError::ProbeFailure("no such file".to_string()).message(),
        "ffprobe failed: no such file"
    );
    assert_eq!(
        ProcessError::ParseFailure("garbage\n".to_string()).message(),
        "Invalid ffprobe output: garbage\n"
    );
    assert_eq!(
        ProcessError::InvalidAspectRatio(DeliveryTarget::Home).message(),
        "Invalid aspect ratio for Home (Horizontal expected)"
    );
    assert_eq!(
        ProcessError::InvalidAspectRatio(DeliveryTarget::Flash).message(),
        "Invalid aspect ratio for Flash (Vertical expected)"
    );
    assert_eq!(ProcessError::UnknownFormat.message(), "Unknown format");
    assert_eq!(
        ProcessError::EncodeFailure(720).message(),
        "ffmpeg transcoding to 720p failed"
    );
    assert_eq!(
        ProcessError::ThumbnailFailure.message(),
        "ffmpeg thumbnail generation failed"
    );
    assert_eq!(
        ProcessError::CopyFailure("permission denied".to_string()).message(),
        "permission denied"
    );
}

#[test]
fn a_copy_of_a_failure_is_the_same_failure() {
    let failures = vec![
        ProcessError::ProbeFailure("a".to_string()),
        ProcessError::ParseFailure("b".to_string()),
        ProcessError::InvalidAspectRatio(DeliveryTarget::Home),
        ProcessError::InvalidAspectRatio(DeliveryTarget::Flash),
        ProcessError::UnknownFormat,
        ProcessError::EncodeFailure(1440),
        ProcessError::ThumbnailFailure,
        ProcessError::CopyFailure("c".to_string()),
    ];
    for failure in &failures {
        assert_eq!(&failure.duplicate(), failure);
    }
}
