use fuzzymonth::{format_month, parse_month, Month, ValidationError};

#[test]
fn test_exact_matches() {
    assert_eq!(parse_month("january").unwrap(), Month::January);
    assert_eq!(parse_month("jan").unwrap(), Month::January);
    assert_eq!(parse_month("1").unwrap(), Month::January);
    assert_eq!(parse_month("01").unwrap(), Month::January);
    assert_eq!(parse_month("January").unwrap(), Month::January);
    assert_eq!(parse_month(" january ").unwrap(), Month::January);
    assert_eq!(parse_month("JANUARY").unwrap(), Month::January);
}

#[test]
fn test_fuzzy_matches() {
    assert_eq!(parse_month("janurary").unwrap(), Month::January);
    assert_eq!(parse_month("feburary").unwrap(), Month::February);
    assert_eq!(parse_month("febuary").unwrap(), Month::February);
    assert_eq!(parse_month("marh").unwrap(), Month::March);
    assert_eq!(parse_month("appril").unwrap(), Month::April);
    assert_eq!(parse_month("apryl").unwrap(), Month::April);
    assert_eq!(parse_month("agust").unwrap(), Month::August);
    assert_eq!(parse_month("augst").unwrap(), Month::August);
    assert_eq!(parse_month("septmber").unwrap(), Month::September);
    assert_eq!(parse_month("sepetember").unwrap(), Month::September);
    assert_eq!(parse_month("ocktober").unwrap(), Month::October);
    assert_eq!(parse_month("novemeber").unwrap(), Month::November);
    assert_eq!(parse_month("deccember").unwrap(), Month::December);
}

#[test]
fn test_abbreviated_inputs() {
    assert_eq!(parse_month("ja").unwrap(), Month::January);
    assert_eq!(parse_month("feb").unwrap(), Month::February);
    assert_eq!(parse_month("sept").unwrap(), Month::September);
    assert_eq!(parse_month("nov").unwrap(), Month::November);
    assert_eq!(parse_month("dec").unwrap(), Month::December);
}

#[test]
fn test_ordinal_numbers() {
    assert_eq!(parse_month("1st").unwrap(), Month::January);
    assert_eq!(parse_month("2nd").unwrap(), Month::February);
    assert_eq!(parse_month("3rd").unwrap(), Month::March);
    assert_eq!(parse_month("4th").unwrap(), Month::April);
}

#[test]
fn test_invalid_inputs() {
    for input in ["januori", "marsh", "julie", "13", "0", "", " "] {
        assert!(matches!(
            parse_month(input),
            Err(ValidationError::InvalidEnumValue(_))
        ));
    }
}

#[test]
fn test_similarity_threshold_consistency() {
    let month_names = [
        "january",
        "february",
        "march",
        "april",
        "may",
        "june",
        "july",
        "august",
        "september",
        "october",
        "november",
        "december",
    ];

    for name in month_names {
        let slightly_wrong = format!("{name}x");
        let similarity = strsim::normalized_levenshtein(name, &slightly_wrong);
        assert!(similarity >= 0.75);
        assert!(parse_month(&slightly_wrong).is_ok());

        let very_wrong = format!("xxx{name}yyy");
        assert!(parse_month(&very_wrong).is_err());
    }
}

#[test]
fn test_error_messages() {
    let err = parse_month("invalid").unwrap_err();
    assert!(matches!(err, ValidationError::InvalidEnumValue(_)));
}

#[test]
fn test_edge_cases() {
    assert_eq!(parse_month("j@nuary").unwrap(), Month::January);
    assert_eq!(parse_month("febru4ry").unwrap(), Month::February);
    assert_eq!(parse_month("m@rch").unwrap(), Month::March);
    assert_eq!(parse_month("jun3").unwrap(), Month::June);
}

#[test]
fn test_international_variants() {
    assert_eq!(parse_month("enero").unwrap(), Month::January);
    assert_eq!(parse_month("janvier").unwrap(), Month::January);
    assert_eq!(parse_month("januar").unwrap(), Month::January);
}

#[test]
fn test_international_all_languages() {
    // One spelling per supported language, each resolving to its month.
    assert_eq!(parse_month("enero").unwrap(), Month::January); // Spanish
    assert_eq!(parse_month("janvier").unwrap(), Month::January); // French
    assert_eq!(parse_month("dezember").unwrap(), Month::December); // German
    assert_eq!(parse_month("gennaio").unwrap(), Month::January); // Italian
    assert_eq!(parse_month("styczeń").unwrap(), Month::January); // Polish
    assert_eq!(parse_month("январь").unwrap(), Month::January); // Russian
    assert_eq!(parse_month("يناير").unwrap(), Month::January); // Arabic
    assert_eq!(parse_month("一月").unwrap(), Month::January); // Chinese
    assert_eq!(parse_month("luty").unwrap(), Month::February);
    assert_eq!(parse_month("marzo").unwrap(), Month::March);
    assert_eq!(parse_month("avril").unwrap(), Month::April);
    assert_eq!(parse_month("maggio").unwrap(), Month::May);
    assert_eq!(parse_month("juin").unwrap(), Month::June);
    assert_eq!(parse_month("يوليو").unwrap(), Month::July);
    assert_eq!(parse_month("août").unwrap(), Month::August);
    assert_eq!(parse_month("wrzesień").unwrap(), Month::September);
    assert_eq!(parse_month("октябрь").unwrap(), Month::October);
    assert_eq!(parse_month("十一月").unwrap(), Month::November);
    assert_eq!(parse_month("ديسمبر").unwrap(), Month::December);
}

#[test]
fn test_all_numeric_forms() {
    let months = [
        Month::January,
        Month::February,
        Month::March,
        Month::April,
        Month::May,
        Month::June,
        Month::July,
        Month::August,
        Month::September,
        Month::October,
        Month::November,
        Month::December,
    ];
    for (i, month) in months.iter().enumerate() {
        let n = i + 1;
        assert_eq!(parse_month(&format!("{n}")).unwrap(), *month);
        assert_eq!(parse_month(&format!("{n:02}")).unwrap(), *month);
        assert_eq!(month.number() as usize, n);
    }
    assert!(parse_month("0").is_err());
    assert!(parse_month("13").is_err());
    assert!(parse_month("100").is_err());
    // The numeric prefix tolerates leading zeros and trailing noise.
    assert_eq!(parse_month("001").unwrap(), Month::January);
    assert_eq!(parse_month("12abc").unwrap(), Month::December);
}

#[test]
fn test_whitespace_and_case() {
    assert_eq!(parse_month(" JANUARY ").unwrap(), Month::January);
    assert_eq!(parse_month("  DECEMBER  ").unwrap(), Month::December);
    assert_eq!(parse_month("MaRcH").unwrap(), Month::March);
    // Trimming alone decides this one: untrimmed it is too far from "may".
    assert_eq!(parse_month(" may ").unwrap(), Month::May);
}

#[test]
fn test_error_message_embeds_original_input() {
    let raw = " Notamonth ";
    let err = parse_month(raw).unwrap_err();
    let expected = format!("Invalid month: {raw}. Enter a month from January to December");
    assert_eq!(err.message(), expected);
    let ValidationError::InvalidEnumValue(msg) = err;
    assert_eq!(msg, expected);
}

#[test]
fn test_repeated_calls_agree() {
    let first = parse_month("july");
    let middle = parse_month("nonsense");
    let second = parse_month("july");
    assert!(middle.is_err());
    assert_eq!(first.unwrap(), second.unwrap());
    assert_eq!(parse_month("sebtembar").unwrap(), parse_month("sebtembar").unwrap());
}

#[test]
fn test_format_month() {
    assert_eq!(format_month(Month::January), "January (1)");
    assert_eq!(format_month(Month::September), "September (9)");
    assert_eq!(format_month(Month::December), "December (12)");
}
