use ico_project::whitepaper::submit_whitepaper_at;
use ico_project::whitepaper::SubmitWhitepaper;
use ico_project::whitepaper::WhitepaperError;
use ico_project::whitepaper::WhitepaperMeta;
use ico_project::whitepaper::WhitepaperState;
use ico_project::whitepaper::WhitepaperSubmitted;
use ico_project::Identity;

fn first_submission() -> SubmitWhitepaper {
    SubmitWhitepaper {
        meta: WhitepaperMeta {
            author: Identity::new([0u8; 32]),
            latest_cid: String::new(),
            version_count: 0,
            last_updated: 0,
            project_name: String::new(),
        },
        author: Identity::new([6u8; 32]),
        bump: 254,
    }
}

#[test]
fn first_version_names_the_project() {
    let mut ctx = first_submission();
    let (whitepaper, notice) =
        submit_whitepaper_at(&mut ctx, "cid-one".to_string(), "Project".to_string(), 1_700).unwrap();
    assert_eq!(
        whitepaper,
        WhitepaperState {
            author: Identity::new([6u8; 32]),
            cid: "cid-one".to_string(),
            version: 1,
            timestamp: 1_700,
            bump: 254,
        }
    );
    assert_eq!(
        notice,
        WhitepaperSubmitted {
            author: Identity::new([6u8; 32]),
            cid: "cid-one".to_string(),
            version: 1,
        }
    );
    assert_eq!(
        ctx.meta,
        WhitepaperMeta {
            author: Identity::new([6u8; 32]),
            latest_cid: "cid-one".to_string(),
            version_count: 1,
            last_updated: 1_700,
            project_name: "Project".to_string(),
        }
    );
}

#[test]
fn later_versions_keep_the_project_name() {
    let mut ctx = first_submission();
    submit_whitepaper_at(&mut ctx, "cid-one".to_string(), "Project".to_string(), 1_700).unwrap();
    let (whitepaper, notice) =
        submit_whitepaper_at(&mut ctx, "cid-two".to_string(), "Renamed".to_string(), 1_800).unwrap();
    assert_eq!(whitepaper.version, 2);
    assert_eq!(whitepaper.cid, "cid-two");
    assert_eq!(whitepaper.timestamp, 1_800);
    assert_eq!(notice.version, 2);
    assert_eq!(ctx.meta.version_count, 2);
    assert_eq!(ctx.meta.latest_cid, "cid-two");
    assert_eq!(ctx.meta.last_updated, 1_800);
    assert_eq!(ctx.meta.project_name, "Project");
}

#[test]
fn long_content_identifier_is_refused() {
    let mut ctx = first_submission();
    let refused = submit_whitepaper_at(&mut ctx, "c".repeat(200), "Project".to_string(), 5);
    assert_eq!(refused, Err(WhitepaperError::CIDTooLong));
    assert_eq!(ctx, first_submission());
    assert!(submit_whitepaper_at(&mut ctx, "c".repeat(199), "Project".to_string(), 5).is_ok());
}

#[test]
fn long_project_name_is_refused() {
    let mut ctx = first_submission();
    let refused = submit_whitepaper_at(&mut ctx, "cid".to_string(), "n".repeat(100), 5);
    assert_eq!(refused, Err(WhitepaperError::NameTooLong));
    assert_eq!(ctx, first_submission());
    let refused = submit_whitepaper_at(&mut ctx, "c".repeat(200), "n".repeat(100), 5);
    assert_eq!(refused, Err(WhitepaperError::CIDTooLong));
    assert!(submit_whitepaper_at(&mut ctx, "cid".to_string(), "n".repeat(99), 5).is_ok());
}

#[test]
fn lengths_are_counted_in_bytes() {
    let mut ctx = first_submission();
    let name = "\u{e9}".repeat(50);
    assert_eq!(name.chars().count(), 50);
    let refused = submit_whitepaper_at(&mut ctx, "cid".to_string(), name, 5);
    assert_eq!(refused, Err(WhitepaperError::NameTooLong));
    let name = "\u{e9}".repeat(49);
    assert!(submit_whitepaper_at(&mut ctx, "cid".to_string(), name, 5).is_ok());
}
