//! Replacing the program by its latest release.

use std::io::{self, Read, Write};

use agira::commands::self_update::{
    already_up_to_date_message, download_speed, filled_progress_segments, find_asset,
    format_download_progress, is_current_version, platform_asset_name, progress_bar,
    progress_marker, progress_percentage, release_version, run_self_update, temp_download_path,
    updated_message, DownloadProgressReporter, GithubAsset, GithubRelease, ProgressMarker,
    ReleaseSeen, SelfUpdateError, UpdateStep, DOWNLOAD_BUFFER_SIZE,
};

/// Copies what a reader gives and writes the lines about it.
fn copy_with_download_progress<R: Read, W: Write, P: Write>(
    reader: &mut R,
    writer: &mut W,
    total_bytes: Option<u64>,
    progress_output: &mut P,
    elapsed_millis: u128,
) -> io::Result<u64> {
    let mut reporter = DownloadProgressReporter::new(total_bytes);
    writeln_line(progress_output, &reporter.start(elapsed_millis))?;
    let mut downloaded: u64 = 0;
    let mut buffer = vec![0; DOWNLOAD_BUFFER_SIZE];
    loop {
        let bytes_read = reader.read(&mut buffer)?;
        if bytes_read == 0 {
            break;
        }
        writer.write_all(&buffer[..bytes_read])?;
        downloaded += bytes_read as u64;
        if let Some(line) = reporter.record(downloaded, elapsed_millis) {
            writeln_line(progress_output, &line)?;
        }
    }
    if let Some(line) = reporter.finish(downloaded, elapsed_millis) {
        writeln_line(progress_output, &line)?;
    }
    Ok(downloaded)
}

fn writeln_line<P: Write>(output: &mut P, line: &str) -> io::Result<()> {
    output.write_all(line.as_bytes())?;
    output.write_all(b"\n")
}

#[test]
fn platform_asset_name_maps_supported_targets() {
    assert_eq!(
        platform_asset_name("macos", "aarch64").unwrap(),
        "agira-aarch64-apple-darwin"
    );
    assert_eq!(
        platform_asset_name("macos", "x86_64").unwrap(),
        "agira-x86_64-apple-darwin"
    );
    assert_eq!(
        platform_asset_name("linux", "x86_64").unwrap(),
        "agira-x86_64-unknown-linux-gnu"
    );
}

#[test]
fn platform_asset_name_rejects_unsupported_targets() {
    assert!(matches!(
        platform_asset_name("linux", "aarch64"),
        Err(SelfUpdateError::UnsupportedPlatform { .. })
    ));
    assert!(matches!(
        platform_asset_name("windows", "x86_64"),
        Err(SelfUpdateError::UnsupportedPlatform { .. })
    ));
}

#[test]
fn release_version_strips_single_leading_v() {
    assert_eq!(release_version("v0.4.1"), "0.4.1");
    assert_eq!(release_version("0.4.1"), "0.4.1");
}

#[test]
fn is_current_version_matches_normalized_tag() {
    assert!(is_current_version("v0.4.1", "0.4.1"));
}

#[test]
fn is_current_version_detects_new_release() {
    assert!(!is_current_version("v0.4.2", "0.4.1"));
}

#[test]
fn find_asset_matches_exact_name() {
    let release = GithubRelease {
        tag_name: "v0.4.2".to_owned(),
        assets: vec![
            GithubAsset {
                name: "agira-aarch64-apple-darwin".to_owned(),
                browser_download_url: "https://example.test/aarch64".to_owned(),
            },
            GithubAsset {
                name: "agira-x86_64-apple-darwin".to_owned(),
                browser_download_url: "https://example.test/x86_64".to_owned(),
            },
        ],
    };

    let asset = find_asset(&release, "agira-x86_64-apple-darwin").unwrap();

    assert_eq!(asset.browser_download_url, "https://example.test/x86_64");
}

#[test]
fn find_asset_returns_none_for_missing_name() {
    let release = GithubRelease {
        tag_name: "v0.4.2".to_owned(),
        assets: vec![GithubAsset {
            name: "agira-aarch64-apple-darwin".to_owned(),
            browser_download_url: "https://example.test/aarch64".to_owned(),
        }],
    };

    assert!(find_asset(&release, "agira-x86_64-apple-darwin").is_none());
}

#[test]
fn already_up_to_date_message_formats_exactly() {
    assert_eq!(
        already_up_to_date_message("0.4.1"),
        "agira is already up to date (v0.4.1)"
    );
}

#[test]
fn updated_message_formats_exactly() {
    assert_eq!(updated_message("0.4.2"), "updated to v0.4.2");
}

#[test]
fn download_progress_formats_bytes_percentage_bar_and_speed() {
    assert_eq!(
        format_download_progress(1024, Some(2048), 2_000),
        "download [##########----------] 1024 B / 2048 B (50%) 512 B/s"
    );
}

#[test]
fn download_progress_handles_unknown_total_without_ansi_sequences() {
    let output = format_download_progress(1536, None, 1_000);

    assert_eq!(
        output,
        "download [????????????????????] 1536 B / unknown (--%) 1536 B/s"
    );
    assert!(!output.contains('\x1b'));
    assert!(!output.contains('\r'));
}

#[test]
fn copy_with_download_progress_reports_start_intermediate_and_finish() {
    let body = vec![7; DOWNLOAD_BUFFER_SIZE * 2];
    let mut reader = io::Cursor::new(body.clone());
    let mut writer = Vec::new();
    let mut progress = Vec::new();

    let copied = copy_with_download_progress(
        &mut reader,
        &mut writer,
        Some(body.len() as u64),
        &mut progress,
        2_000,
    )
    .unwrap();

    let progress = String::from_utf8(progress).unwrap();
    assert_eq!(copied, body.len() as u64);
    assert_eq!(writer, body);
    assert!(progress.contains("download [--------------------] 0 B / 16384 B (0%) 0 B/s\n"));
    assert!(
        progress.contains("download [##########----------] 8192 B / 16384 B (50%) 4096 B/s\n")
    );
    assert!(
        progress
            .contains("download [####################] 16384 B / 16384 B (100%) 8192 B/s\n")
    );
    assert!(!progress.contains('\x1b'));
    assert!(!progress.contains('\r'));
}

fn release(tag: &str) -> ReleaseSeen {
    ReleaseSeen::Release {
        release: GithubRelease {
            tag_name: tag.to_owned(),
            assets: vec![GithubAsset {
                name: "agira-x86_64-unknown-linux-gnu".to_owned(),
                browser_download_url: "https://example.test/linux".to_owned(),
            }],
        },
    }
}

#[test]
fn update_installs_a_newer_release() {
    assert_eq!(
        run_self_update("linux", "x86_64", &release("v0.4.2"), "0.4.1"),
        Ok(UpdateStep::Install {
            url: "https://example.test/linux".to_owned(),
            message: "updated to v0.4.2".to_owned(),
        })
    );
    assert_eq!(
        run_self_update("linux", "x86_64", &release("v0.4.1"), "0.4.1"),
        Ok(UpdateStep::UpToDate {
            message: "agira is already up to date (v0.4.1)".to_owned(),
        })
    );
}

#[test]
fn update_failures_are_told_apart() {
    let message = "offline".to_owned();
    let cases = [
        (
            run_self_update("windows", "x86_64", &release("v0.4.2"), "0.4.1"),
            "unsupported platform: windows/x86_64",
        ),
        (
            run_self_update("macos", "aarch64", &release("v0.4.2"), "0.4.1"),
            "no asset found for macos/aarch64 in release v0.4.2",
        ),
        (
            run_self_update(
                "linux",
                "x86_64",
                &ReleaseSeen::NoClient {
                    message: message.clone(),
                },
                "0.4.1",
            ),
            "failed to build http client: offline",
        ),
        (
            run_self_update(
                "linux",
                "x86_64",
                &ReleaseSeen::Unfetched {
                    message: message.clone(),
                },
                "0.4.1",
            ),
            "failed to fetch latest release: offline",
        ),
        (
            run_self_update("linux", "x86_64", &ReleaseSeen::Malformed { message }, "0.4.1"),
            "failed to parse latest release: offline",
        ),
    ];
    for (result, expected) in cases {
        assert_eq!(result.unwrap_err().message(), expected);
    }
}

#[test]
fn download_goes_beside_the_program() {
    assert_eq!(
        temp_download_path("/opt/bin/agira", Some("/opt/bin"), 42, 1_000_000_007).unwrap(),
        "/opt/bin/agira-update-42-1000000007.tmp"
    );
    assert_eq!(
        temp_download_path("agira", None, 42, 7).unwrap_err(),
        SelfUpdateError::MissingExeParent {
            path: "agira".to_owned(),
        }
    );
}

#[test]
fn progress_numbers_have_exact_values() {
    assert_eq!(filled_progress_segments(0, 0), 20);
    assert_eq!(filled_progress_segments(99, 100), 19);
    assert_eq!(filled_progress_segments(300, 100), 20);
    assert_eq!(filled_progress_segments(u64::MAX, u64::MAX), 20);
    assert_eq!(progress_percentage(1, 3), 33);
    assert_eq!(progress_percentage(0, 0), 100);
    assert_eq!(progress_percentage(7, 5), 100);
    assert_eq!(download_speed(1024, 0), 0);
    assert_eq!(download_speed(1000, 3000), 333);
    assert_eq!(
        download_speed(u64::MAX, 1),
        ((u64::MAX as u128 * 1000) % (1 << 64)) as u64
    );
    assert_eq!(progress_bar(99, Some(100)), "###################-");
    assert_eq!(progress_bar(100, Some(100)), "####################");
    assert_eq!(
        progress_marker(3 * 1024 * 1024, None),
        ProgressMarker::UnknownTotalBucket(3)
    );
}

#[test]
fn progress_is_shown_once_per_step() {
    let mut reporter = DownloadProgressReporter::new(Some(100));
    reporter.start(0);
    assert_eq!(reporter.record(4, 1), None);
    assert!(reporter.record(5, 1).is_some());
    assert_eq!(reporter.record(9, 1), None);
    assert_eq!(
        reporter.finish(9, 1000).unwrap(),
        "download [#-------------------] 9 B / 100 B (9%) 9 B/s"
    );
    assert_eq!(reporter.finish(9, 1000), None);
}
