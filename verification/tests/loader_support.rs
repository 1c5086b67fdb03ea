//! URI support and image-parameter parsing.

use uicore::params::ImageProcessingParameter;
use uicore::params::ParamError;
use uicore::params::parse_milli;
use uicore::params::parse_signed;
use uicore::{is_supported_uri, is_unsupported_mime};

#[test]
fn check_support() {
    assert!(is_supported_uri("https://test.png"));
    assert!(is_supported_uri("test.jpeg"));
    assert!(is_supported_uri("http://test.gif"));
    assert!(is_supported_uri("test.webp"));
    assert!(is_supported_uri("file://test"));
    assert!(!is_supported_uri("test.svg"));
}

#[test]
fn check_parse() {
    assert_eq!(
        ImageProcessingParameter::parse_from_url("file://test?rotate-90-angle=1&contrast=0.5&brighten=10"),
        Ok(ImageProcessingParameter {
            rotate_90_angle: 1,
            contrast_milli: 500,
            brighten: 10,
        })
    );
    // add unknown parameter
    assert_eq!(
        ImageProcessingParameter::parse_from_url(
            "file://test?rotate-90-angle=1&contrast=0.5&brighten=10&unknown=10"
        ),
        Ok(ImageProcessingParameter {
            rotate_90_angle: 1,
            contrast_milli: 500,
            brighten: 10,
        })
    );
    // typo case
    assert_eq!(
        ImageProcessingParameter::parse_from_url(
            "file://test?rotate_90_angle=1&contrust=0.5&brighten=10&unknown=10"
        ),
        Ok(ImageProcessingParameter {
            rotate_90_angle: 0,
            contrast_milli: 0,
            brighten: 10,
        })
    );
}

#[test]
fn mime_support() {
    assert!(is_unsupported_mime("image/svg+xml"));
    assert!(is_unsupported_mime("svg"));
    assert!(!is_unsupported_mime("image/png"));
    assert!(!is_unsupported_mime(""));
    assert!(!is_unsupported_mime("sv"));
}

#[test]
fn uri_edge_cases() {
    // A hidden file named exactly like the extension has no extension.
    assert!(is_supported_uri(".svg"));
    assert!(is_supported_uri("dir.svg/file.png"));
    assert!(!is_supported_uri("dir.png/file.svg"));
    assert!(!is_supported_uri("a..svg"));
    assert!(is_supported_uri(""));
    // Trailing separators are ignored when naming the final component.
    assert!(!is_supported_uri("foo.svg/"));
    assert!(!is_supported_uri("foo.svg//"));
    assert!(is_supported_uri("foo.png/"));
    assert!(is_supported_uri("/"));
}

#[test]
fn plus_signed_values() {
    // A plus-signed value reads like an unsigned one, as integer and
    // float parsers accept it. In a query string a literal plus must be
    // percent-encoded; a bare one decodes to a space and fails to parse.
    assert_eq!(
        ImageProcessingParameter::parse_from_url(
            "file://test?rotate-90-angle=%2B1&contrast=%2B0.5&brighten=%2B10"
        ),
        Ok(ImageProcessingParameter {
            rotate_90_angle: 1,
            contrast_milli: 500,
            brighten: 10,
        })
    );
    assert_eq!(
        ImageProcessingParameter::parse_from_url("file://test?rotate-90-angle=+1"),
        Err(ParamError::InvalidRotate)
    );
}

#[test]
fn parse_errors() {
    assert_eq!(
        ImageProcessingParameter::parse_from_url("not a url"),
        Err(ParamError::InvalidUrl)
    );
    assert_eq!(
        ImageProcessingParameter::parse_from_url("file://t?rotate-90-angle=x"),
        Err(ParamError::InvalidRotate)
    );
    assert_eq!(
        ImageProcessingParameter::parse_from_url("file://t?rotate-90-angle=4"),
        Err(ParamError::RotateOutOfRange)
    );
    assert_eq!(
        ImageProcessingParameter::parse_from_url("file://t?contrast=abc"),
        Err(ParamError::InvalidContrast)
    );
    assert_eq!(
        ImageProcessingParameter::parse_from_url("file://t?contrast=1.5"),
        Err(ParamError::ContrastOutOfRange)
    );
    assert_eq!(
        ImageProcessingParameter::parse_from_url("file://t?brighten=ten"),
        Err(ParamError::InvalidBrighten)
    );
}

#[test]
fn url_params_roundtrip_text() {
    let p = ImageProcessingParameter::new(1, 500, 10);
    assert_eq!(p.into_url_params(), "?rotate-90-angle=1&contrast=0.5&brighten=10");
    let p = ImageProcessingParameter::new(0, -250, -3);
    assert_eq!(p.into_url_params(), "?rotate-90-angle=0&contrast=-0.25&brighten=-3");
    let p = ImageProcessingParameter::new(3, 1000, 0);
    assert_eq!(p.into_url_params(), "?rotate-90-angle=3&contrast=1&brighten=0");
    let p = ImageProcessingParameter::new(2, 50, 2147483647);
    assert_eq!(p.into_url_params(), "?rotate-90-angle=2&contrast=0.05&brighten=2147483647");
    // Writing and re-reading preserves the values.
    let p = ImageProcessingParameter::new(1, 125, -7);
    let url = format!("file://t{}", p.into_url_params());
    assert_eq!(ImageProcessingParameter::parse_from_url(&url), Ok(p));
}

#[test]
fn parse_values() {
    assert_eq!(parse_milli("0.5"), Some(500));
    assert_eq!(parse_milli("-0.25"), Some(-250));
    assert_eq!(parse_milli("1"), Some(1000));
    assert_eq!(parse_milli("0.001"), Some(1));
    assert_eq!(parse_milli("1."), Some(1000));
    assert_eq!(parse_milli("0.1234"), None);
    assert_eq!(parse_milli(""), None);
    assert_eq!(parse_milli("-"), None);
    assert_eq!(parse_signed("10"), Some(10));
    assert_eq!(parse_signed("+10"), Some(10));
    assert_eq!(parse_signed("+"), None);
    assert_eq!(parse_signed("+-1"), None);
    assert_eq!(parse_milli("+0.5"), Some(500));
    assert_eq!(parse_signed("-42"), Some(-42));
    assert_eq!(parse_signed("2147483647"), Some(2147483647));
    assert_eq!(parse_signed("2147483648"), None);
    assert_eq!(parse_signed("-2147483648"), Some(-2147483648));
    assert_eq!(parse_signed(""), None);
    let p = ImageProcessingParameter::new(2, -100, 7);
    assert_eq!(p.rotate_90_angle, 2);
    assert_eq!(p.contrast_milli, -100);
    assert_eq!(p.brighten, 7);
}
