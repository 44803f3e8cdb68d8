use video_service::error::ProcessError;
use video_service::format::Dimensions;
use video_service::command::ToolOutcome;
use video_service::probe::{parse_dimensions, read_probe};

fn unreadable(output: &str) {
    assert_eq!(
        parse_dimensions(output),
        Err(ProcessError::ParseFailure(output.to_string()))
    );
}

#[test]
fn reads_width_and_height() {
    assert_eq!(parse_dimensions("1920x1080"), Ok(Dimensions { width: 1920, height: 1080 }));
    assert_eq!(parse_dimensions("1080x1920"), Ok(Dimensions { width: 1080, height: 1920 }));
    assert_eq!(parse_dimensions("7x5"), Ok(Dimensions { width: 7, height: 5 }));
}

#[test]
fn ignores_surrounding_white_space() {
    assert_eq!(parse_dimensions("1920x1080\n"), Ok(Dimensions { width: 1920, height: 1080 }));
    assert_eq!(parse_dimensions("  640x480 \r\n"), Ok(Dimensions { width: 640, height: 480 }));
    assert_eq!(
        parse_dimensions("\t\u{b}\u{c}400x300\u{c}\u{b}\t"),
        Ok(Dimensions { width: 400, height: 300 })
    );
}

#[test]
fn reads_leading_zeros() {
    assert_eq!(parse_dimensions("0480x0270"), Ok(Dimensions { width: 480, height: 270 }));
    assert_eq!(
        parse_dimensions("00000000000000000001x2"),
        Ok(Dimensions { width: 1, height: 2 })
    );
}

#[test]
fn reads_numbers_up_to_thirty_two_bits() {
    assert_eq!(
        parse_dimensions("4294967295x4294967295"),
        Ok(Dimensions { width: u32::MAX, height: u32::MAX })
    );
    unreadable("4294967296x1");
    unreadable("1x4294967296");
    unreadable("99999999999999999999999999x1");
}

#[test]
fn rejects_dimensions_of_zero() {
    unreadable("0x0");
    unreadable("0x1080");
    unreadable("1920x0");
    unreadable("000x000");
}

#[test]
fn rejects_output_without_two_components() {
    unreadable("");
    unreadable("   ");
    unreadable("1920");
    unreadable("x");
    unreadable("1920x");
    unreadable("x1080");
    unreadable("1920x1080x3");
    unreadable("1920x1080\n1920x1080");
}

#[test]
fn rejects_components_that_are_not_numerals() {
    unreadable("abc");
    unreadable("19a0x1080");
    unreadable("1920 x1080");
    unreadable("1920x 1080");
    unreadable("1920X1080");
    unreadable("-5x3");
    unreadable("+5x3");
    unreadable("1.5x2");
    unreadable("N/AxN/A");
}

#[test]
fn rejects_text_outside_ascii() {
    unreadable("１９２０x1080");
    unreadable("1920×1080");
    unreadable("\u{a0}1920x1080");
    unreadable("1920x1080\u{fffd}");
}

#[test]
fn parse_failure_holds_the_output_as_given() {
    match parse_dimensions("  no video stream \n") {
        Err(ProcessError::ParseFailure(output)) => assert_eq!(output, "  no video stream \n"),
        other => panic!("unexpected reading: {:?}", other),
    }
}

#[test]
fn successful_probe_is_read_from_what_it_printed() {
    let outcome = ToolOutcome::succeeded("1280x720\n".to_string());
    assert_eq!(read_probe(&outcome), Ok(Dimensions { width: 1280, height: 720 }));
    let outcome = ToolOutcome::succeeded("".to_string());
    assert_eq!(read_probe(&outcome), Err(ProcessError::ParseFailure("".to_string())));
}

#[test]
fn failed_probe_is_a_probe_failure_with_the_tools_complaint() {
    let outcome = ToolOutcome::failed("moov atom not found".to_string());
    assert_eq!(
        read_probe(&outcome),
        Err(ProcessError::ProbeFailure("moov atom not found".to_string()))
    );
    let outcome = ToolOutcome {
        success: false,
        output: "1280x720".to_string(),
        detail: "interrupted".to_string(),
    };
    assert_eq!(read_probe(&outcome), Err(ProcessError::ProbeFailure("interrupted".to_string())));
}

#[test]
fn reads_back_every_printed_pair() {
    for width in [1u32, 9, 10, 99, 100, 479, 480, 1920, 65535, 4294967295] {
        for height in [1u32, 9, 10, 300, 1080, 2160, 4294967295] {
            let printed = format!("{}x{}", width, height);
            assert_eq!(parse_dimensions(&printed), Ok(Dimensions { width, height }));
        }
    }
}
