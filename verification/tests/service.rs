use bping::api::{
    available_nodes_status, get_job_results, login_status, post_job_status,
    validate_login_email, AuthenticationErrors, JobErrors, PollAction, PollReply,
    POLL_INTERVAL_MS,
};
use bping::config::{
    get_configuration, BitpingConfig, BpingConfiguration, BpingDiagnosticsConfig, ConfigErrors,
};
use bping::errors::{BpingErrors, ClientError, ConversionError, Errors, ValidationErrors};
use bping::nodes::{AvailableNodes, Result as NodeCount};
use bping::text::{number_text, str_eq};
use bping::validators::{
    continent_code_for, continent_name_for, get_continent_code, get_continent_name,
    get_emoji_safe_region_code, is_continent, pick_emoji_code, pick_validated, validate_region,
    CountryInfo,
};

#[test]
fn post_status() {
    assert_eq!(post_job_status(200), Ok(()));
    assert_eq!(post_job_status(402), Err(JobErrors::LowFunds));
    assert_eq!(post_job_status(500), Err(JobErrors::OtherFailedStatus(500)));
    assert_eq!(post_job_status(201), Err(JobErrors::OtherFailedStatus(201)));
}

#[test]
fn nodes_status() {
    assert_eq!(available_nodes_status(200), Ok(()));
    assert_eq!(available_nodes_status(404), Err(JobErrors::UnableToFindNodes));
}

#[test]
fn login_answers() {
    assert_eq!(login_status(200), Ok(()));
    assert_eq!(login_status(401), Err(AuthenticationErrors::LoginError));
}

#[test]
fn polling_ends_on_results_or_done() {
    assert_eq!(POLL_INTERVAL_MS, 350);
    let read = |responses: usize, status: &str| PollReply::Read {
        responses,
        status: status.to_string(),
    };
    assert_eq!(get_job_results(read(1, "pending")), PollAction::Done);
    assert_eq!(get_job_results(read(0, "done")), PollAction::Done);
    assert_eq!(get_job_results(read(3, "done")), PollAction::Done);
    assert_eq!(get_job_results(read(0, "pending")), PollAction::WaitAndPoll(350));
    assert_eq!(get_job_results(read(0, "Done")), PollAction::WaitAndPoll(350));
    assert_eq!(get_job_results(PollReply::ErrorStatus), PollAction::WaitAndPoll(350));
    assert_eq!(
        get_job_results(PollReply::SendFailed("refused".to_string())),
        PollAction::Fail(JobErrors::HttpError("refused".to_string()))
    );
    assert_eq!(
        get_job_results(PollReply::Unreadable("not json".to_string())),
        PollAction::Fail(JobErrors::HttpError("not json".to_string()))
    );
}

#[test]
fn continent_codes() {
    assert_eq!(get_continent_code("oceania"), Some("OC".to_string()));
    assert_eq!(get_continent_code("Asia"), Some("AS".to_string()));
    assert_eq!(get_continent_code("AFRICA"), Some("AF".to_string()));
    assert_eq!(get_continent_code("europe"), Some("EU".to_string()));
    assert_eq!(get_continent_code("north america"), Some("NA".to_string()));
    assert_eq!(get_continent_code("South America"), Some("SA".to_string()));
    assert_eq!(get_continent_code("antarctica"), Some("AN".to_string()));
    assert_eq!(get_continent_code("atlantis"), None);
    assert_eq!(continent_code_for("oceania"), None);
    assert_eq!(continent_code_for("OCEANIA"), Some("OC".to_string()));
}

#[test]
fn continent_names() {
    assert_eq!(get_continent_name("oc"), Some("Oceania".to_string()));
    assert_eq!(get_continent_name("AS"), Some("Asia".to_string()));
    assert_eq!(get_continent_name("af"), Some("Africa".to_string()));
    assert_eq!(get_continent_name("Eu"), Some("Europe".to_string()));
    assert_eq!(get_continent_name("na"), Some("North America".to_string()));
    assert_eq!(get_continent_name("sa"), Some("South America".to_string()));
    assert_eq!(get_continent_name("an"), Some("Antarctica".to_string()));
    assert_eq!(get_continent_name("xx"), None);
    assert_eq!(continent_name_for("eu"), None);
    assert_eq!(continent_name_for("EU"), Some("Europe".to_string()));
}

#[test]
fn continents_are_told_from_the_rest() {
    assert!(is_continent("Oceania"));
    assert!(is_continent("eu"));
    assert!(!is_continent("AU"));
    assert!(!is_continent(""));
}

#[test]
fn regions_are_validated() {
    assert_eq!(validate_region("europe"), Some("EU".to_string()));
    assert_eq!(validate_region("eu"), Some("Europe".to_string()));
    assert_eq!(validate_region("AL"), Some("Albania".to_string()));
    assert_eq!(validate_region("Albania"), Some("008".to_string()));
    assert_eq!(validate_region("Australia"), Some("036".to_string()));
    assert_eq!(validate_region("atlantis"), None);
}

#[test]
fn emoji_codes() {
    assert_eq!(get_emoji_safe_region_code("oceania"), Some("OCEANIA".to_string()));
    assert_eq!(get_emoji_safe_region_code("eu"), Some("EUROPE".to_string()));
    assert_eq!(get_emoji_safe_region_code("Albania"), Some("AL".to_string()));
    assert_eq!(get_emoji_safe_region_code("au"), Some("AU".to_string()));
    assert_eq!(get_emoji_safe_region_code("atlantis"), None);
}

fn info(code: &str, alpha2: &str, long_name: &str) -> CountryInfo {
    CountryInfo {
        code: code.to_string(),
        alpha2: alpha2.to_string(),
        long_name: long_name.to_string(),
    }
}

#[test]
fn first_finding_is_the_validated_text() {
    let some = |s: &str| Some(s.to_string());
    assert_eq!(
        pick_validated(some("c"), some("n"), Some(info("1", "a", "l")), Some(info("2", "b", "m"))),
        some("c")
    );
    assert_eq!(
        pick_validated(None, some("n"), Some(info("1", "a", "l")), Some(info("2", "b", "m"))),
        some("n")
    );
    assert_eq!(
        pick_validated(None, None, Some(info("1", "a", "l")), Some(info("2", "b", "m"))),
        some("l")
    );
    assert_eq!(pick_validated(None, None, None, Some(info("2", "b", "m"))), some("2"));
    assert_eq!(pick_validated(None, None, None, None), None);
}

#[test]
fn first_finding_is_the_emoji_code() {
    let some = |s: &str| Some(s.to_string());
    assert_eq!(
        pick_emoji_code("UP".to_string(), some("c"), some("n"), None, None),
        some("UP")
    );
    assert_eq!(
        pick_emoji_code("UP".to_string(), None, some("Name"), Some(info("1", "a", "l")), None),
        some("NAME")
    );
    assert_eq!(
        pick_emoji_code(
            "UP".to_string(),
            None,
            None,
            Some(info("1", "a", "l")),
            Some(info("2", "b", "m"))
        ),
        some("A")
    );
    assert_eq!(
        pick_emoji_code("UP".to_string(), None, None, None, Some(info("2", "b", "m"))),
        some("B")
    );
    assert_eq!(pick_emoji_code("UP".to_string(), None, None, None, None), None);
}

#[test]
fn default_settings() {
    let d = BpingDiagnosticsConfig::default();
    assert!(!d.show_ping_type);
    assert_eq!(d.log_level, 3);
    assert_eq!(BpingDiagnosticsConfig::new(true, -1).log_level, -1);
    assert!(BpingDiagnosticsConfig::new(true, -1).show_ping_type);
    let c = BpingConfiguration::default();
    assert!(c.default_regions.is_empty());
    assert!(!c.show_emojis);
    assert_eq!(c.diagnostics, d);
}

#[test]
fn settings_fall_back_to_the_default() {
    let loaded = BpingConfiguration {
        default_regions: vec!["AU".to_string()],
        show_emojis: true,
        diagnostics: BpingDiagnosticsConfig::new(true, 1),
    };
    let c = get_configuration(Ok(loaded));
    assert_eq!(c.default_regions, vec!["AU".to_string()]);
    assert!(c.show_emojis);
    assert_eq!(c.diagnostics.log_level, 1);
    for e in [
        ConfigErrors::CantReadFile("x".to_string()),
        ConfigErrors::CantParseFile("x".to_string()),
        ConfigErrors::CantCreateFile("x".to_string()),
        ConfigErrors::Other("x".to_string()),
    ] {
        let c = get_configuration(Err(e));
        assert!(c.default_regions.is_empty());
        assert!(!c.show_emojis);
        assert_eq!(c.diagnostics, BpingDiagnosticsConfig::default());
    }
}

#[test]
fn plain_records() {
    let n = AvailableNodes {
        total: 2,
        results: vec![NodeCount { countrycode: "AU".to_string(), count: "2".to_string() }],
    };
    assert_eq!(n.total, 2);
    assert_eq!(n.results[0].countrycode, "AU");
    assert_eq!(AvailableNodes::default().results.len(), 0);
    let b = BitpingConfig {
        id: "1".to_string(),
        name: "n".to_string(),
        email: "e".to_string(),
        token: "t".to_string(),
    };
    assert_eq!(b.token, "t");
}

#[test]
fn errors_in_words() {
    assert_eq!(
        Errors::UnauthorizedError.to_string(),
        "Unable to call Bitping API. Please set BITPING_API_KEY environment variable."
    );
    assert_eq!(
        Errors::LowFunds.to_string(),
        "Funds are too low to create a job, top up your account at https://app.bitping.com"
    );
    assert_eq!(
        Errors::ImpossibleRequestConfiguration(ConversionError { message: "bad".to_string() })
            .to_string(),
        "Some configuration was passed to the request that is not allowed bad"
    );
    assert_eq!(
        Errors::ProgenitorError(ClientError::UnexpectedResponse(503)).to_string(),
        "Unexpected Response: status: 503"
    );
    assert_eq!(ClientError::ErrorResponse(0).to_string(), "Error Response: status: 0");
    assert_eq!(
        JobErrors::OtherFailedStatus(418).to_string(),
        "Failed to create job with error code 418"
    );
    assert_eq!(
        JobErrors::UnableToFindNodes.to_string(),
        "Unable to find nodes in the specified region"
    );
    assert_eq!(
        JobErrors::CustomHttpError("a".to_string(), "b".to_string()).to_string(),
        "a b"
    );
    assert_eq!(
        ValidationErrors::InvalidRegion("xx".to_string(), 10).to_string(),
        "Invalid region: xx, index: 10"
    );
    assert_eq!(AuthenticationErrors::LoginError.to_string(), "Unable to log in");
    assert_eq!(
        AuthenticationErrors::TokenExpired.to_string(),
        "Provided token has expired, please log in again."
    );
    assert_eq!(
        AuthenticationErrors::InvalidEmail.to_string(),
        "Provided email is invalid. Please try again."
    );
    assert_eq!(
        ConfigErrors::CantReadFile("gone".to_string()).to_string(),
        "Unable to read .bpingrc gone"
    );
    assert_eq!(
        ConfigErrors::CantCreateFile("denied".to_string()).to_string(),
        "Unable to create .bpingrc denied"
    );
    assert_eq!(
        BpingErrors::JobErrors(JobErrors::LowFunds).to_string(),
        JobErrors::LowFunds.to_string()
    );
    assert_eq!(
        BpingErrors::ValidationErrors(ValidationErrors::InvalidRegion("q".to_string(), 0))
            .to_string(),
        "Invalid region: q, index: 0"
    );
}

#[test]
fn numbers_in_decimal() {
    assert_eq!(number_text(0), "0");
    assert_eq!(number_text(7), "7");
    assert_eq!(number_text(10), "10");
    assert_eq!(number_text(1234567890), "1234567890");
    assert_eq!(number_text(usize::MAX), usize::MAX.to_string());
}

#[test]
fn texts_are_compared_by_their_characters() {
    assert!(str_eq("", ""));
    assert!(str_eq("done", "done"));
    assert!(!str_eq("done", "Done"));
    assert!(!str_eq("done", "done "));
    assert!(str_eq("日本", "日本"));
}

#[test]
fn every_poll_that_goes_on_waits_the_interval() {
    let replies = vec![
        PollReply::ErrorStatus,
        PollReply::Read { responses: 0, status: String::new() },
        PollReply::Read { responses: 0, status: "running".to_string() },
    ];
    for reply in replies {
        assert_eq!(get_job_results(reply), PollAction::WaitAndPoll(POLL_INTERVAL_MS));
    }
}

#[test]
fn login_emails_are_validated() {
    assert_eq!(validate_login_email("user@example.com"), Ok(()));
    assert_eq!(validate_login_email("a.b+c@sub.example.org"), Ok(()));
    assert_eq!(validate_login_email(""), Err(AuthenticationErrors::InvalidEmail));
    assert_eq!(validate_login_email("no-at-sign"), Err(AuthenticationErrors::InvalidEmail));
    assert_eq!(validate_login_email("user@"), Err(AuthenticationErrors::InvalidEmail));
    assert_eq!(validate_login_email("@example.com"), Err(AuthenticationErrors::InvalidEmail));
    assert_eq!(validate_login_email("a b@example.com"), Err(AuthenticationErrors::InvalidEmail));
}
