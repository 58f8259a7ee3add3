use asimov::capabilities::{ListerCapabilities, OptionSupport};
use asimov::lister::{CapStep, LineCap, ListerConfig, ListerError, ListingPlan};
use asimov::options::ListerOptions;
use asimov::uri::{char_is_control, char_is_whitespace, is_absolute_uri_text};

fn invalid_input(result: Result<(), ListerError>) -> Option<String> {
    match result {
        Err(ListerError::InvalidInput(message)) => Some(message),
        _ => None,
    }
}

#[test]
fn rejects_invalid_cursor_pagination_before_spawn() {
    for value in [
        "",
        "relative/path",
        "_:blank",
        "not a URI",
        "urn:example:a\n",
        " urn:example:a",
    ] {
        for before in [true, false] {
            let options = if before {
                ListerOptions::builder().before(value).limit(0).build()
            } else {
                ListerOptions::builder().after(value).limit(0).build()
            };
            let lister = ListerConfig::new("example:", options);
            let message = invalid_input(lister.validate()).expect("invalid cursor");
            let option = if before { "--before" } else { "--after" };
            assert_eq!(
                message,
                format!("lister {option} must be an absolute entry URI (JSON-LD @id)")
            );
            assert!(lister.plan().is_err());
        }
    }
    for offset in [0, 2] {
        for before in [true, false] {
            let options = if before {
                ListerOptions::builder().before("urn:item:beta").offset(offset).build()
            } else {
                ListerOptions::builder().after("urn:item:beta").offset(offset).build()
            };
            let lister = ListerConfig::new("example:", options);
            assert_eq!(
                invalid_input(lister.validate()).as_deref(),
                Some("lister offset cannot be combined with before/after cursors")
            );
        }
    }
}

#[test]
fn rejects_unsupported_cursor_bounds_but_allows_unsupported_limit() {
    for (options, option) in [
        (ListerOptions::builder().before("urn:item:beta").limit(1).build(), "--before"),
        (ListerOptions::builder().after("urn:item:beta").limit(1).build(), "--after"),
    ] {
        let lister = ListerConfig::new("example:", options).with_capabilities(
            ListerCapabilities::builder()
                .before(OptionSupport::Unsupported)
                .after(OptionSupport::Unsupported)
                .limit(OptionSupport::Unsupported)
                .build(),
        );
        assert!(matches!(lister.validate(), Err(ListerError::UnsupportedOption(actual)) if actual == option));
    }
    let lister = ListerConfig::new("example:", ListerOptions::builder().limit(0).build())
        .with_capabilities(ListerCapabilities::builder().limit(OptionSupport::Unsupported).build());
    assert!(matches!(lister.plan(), Ok(ListingPlan::Empty)));
}

#[test]
fn rejects_explicitly_unsupported_requests_before_spawning() {
    for limit in [None, Some(0), Some(1)] {
        for (options, option) in [
            (ListerOptions { sort: Some("name".into()), limit, ..Default::default() }, "--sort"),
            (ListerOptions { offset: Some(0), limit, ..Default::default() }, "--offset"),
            (ListerOptions { offset: Some(10), limit, ..Default::default() }, "--offset"),
        ] {
            let lister = ListerConfig::new("example:", options).with_capabilities(ListerCapabilities {
                sort: OptionSupport::Unsupported,
                offset: OptionSupport::Unsupported,
                ..Default::default()
            });
            assert!(matches!(lister.plan(), Err(ListerError::UnsupportedOption(actual)) if actual == option));
        }
    }
}

#[test]
fn supported_and_unknown_requests_are_forwarded() {
    for sort in [OptionSupport::Unknown, OptionSupport::Supported] {
        for offset in [OptionSupport::Unknown, OptionSupport::Supported] {
            let lister = ListerConfig::new(
                "example:",
                ListerOptions::builder().sort("name").offset(2).limit(3).build(),
            )
            .with_capabilities(ListerCapabilities { sort, offset, ..Default::default() });
            assert_eq!(lister.arguments(), ["--sort=name", "--offset=2", "--limit=3", "example:"]);
            assert!(matches!(lister.plan(), Ok(ListingPlan::Capped(3))));
        }
    }
}

#[test]
fn capability_rejection_does_not_poison_later_execution() {
    let lister = ListerConfig::new("example:", ListerOptions::builder().offset(1).build());
    assert_eq!(lister.capabilities, ListerCapabilities::default());
    let lister = lister.with_capabilities(
        ListerCapabilities::builder().offset(OptionSupport::Unsupported).build(),
    );
    assert!(matches!(lister.validate(), Err(ListerError::UnsupportedOption("--offset"))));
    let lister = lister.with_capabilities(
        ListerCapabilities::builder().offset(OptionSupport::Supported).build(),
    );
    assert!(lister.validate().is_ok());
    assert!(matches!(lister.plan(), Ok(ListingPlan::Unlimited)));
}

#[test]
fn pagination_conflict_is_reported_before_capabilities() {
    let lister = ListerConfig::new(
        "example:",
        ListerOptions::builder().offset(1).after("urn:item:a").build(),
    )
    .with_capabilities(ListerCapabilities::builder().offset(OptionSupport::Unsupported).build());
    assert!(invalid_input(lister.validate()).is_some());
}

#[test]
fn accepts_absolute_cursor_uris() {
    for value in ["urn:item:beta", "HTTPS://Example.COM/a%2fb?x=a=b&y=c#end", "mailto:me@example.com"] {
        assert!(is_absolute_uri_text(value), "{value}");
        let lister = ListerConfig::new("example:", ListerOptions::builder().after(value).build());
        assert!(lister.validate().is_ok());
    }
    assert!(!is_absolute_uri_text("https://example.com/\u{a0}"));
}

#[test]
fn whitespace_and_control_characters_match_std() {
    for c in ['\t', '\n', ' ', '\u{85}', '\u{a0}', '\u{1680}', '\u{2000}', '\u{200a}', '\u{2028}', '\u{2029}', '\u{202f}', '\u{205f}', '\u{3000}', 'a', '\u{0}', '\u{7f}', '\u{9f}', '\u{200b}', 'é'] {
        assert_eq!(char_is_whitespace(c), c.is_whitespace(), "{c:?}");
        assert_eq!(char_is_control(c), c.is_control(), "{c:?}");
    }
    for v in 0u32..0x3100 {
        if let Some(c) = char::from_u32(v) {
            assert_eq!(char_is_whitespace(c), c.is_whitespace(), "{v:x}");
            assert_eq!(char_is_control(c), c.is_control(), "{v:x}");
        }
    }
}

#[test]
fn line_cap_forwards_exactly_the_limit() {
    for limit in [1usize, 2, 3, 5] {
        for lines in 0usize..8 {
            let mut cap = Some(LineCap::new(limit));
            let mut forwarded = 0;
            let mut stopped = false;
            for _ in 0..lines {
                let Some(current) = cap.take() else { break };
                let (step, next) = current.take_line();
                forwarded += 1;
                if step == CapStep::ForwardLast {
                    stopped = true;
                }
                cap = next;
            }
            assert_eq!(forwarded, lines.min(limit));
            assert_eq!(stopped, lines >= limit);
        }
    }
    assert_eq!(LineCap::new(usize::MAX).remaining(), usize::MAX);
}
