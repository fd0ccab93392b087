//! Where the state of a project is kept.

use agira::engine::project::{
    find_git_root, hash_suffix, resolve_project_from, slugify, source_path_content, Ancestor,
    CandidateResolution, CandidateSeen, ProjectError,
};

#[test]
fn slug_unit_tests() {
    let cases = [
        ("My App", "my-app"),
        ("My_App", "my-app"),
        ("My--App", "my--app"),
        ("App  01", "app--01"),
        ("München", "m-nchen"),
    ];

    for (input, expected) in cases {
        assert_eq!(slugify(input), expected);
    }
}

#[test]
fn resolve_project_from_creates_state_dir_and_source_path() {
    let ancestors: Vec<Ancestor> = [("/work/app/nested/dir", false), ("/work/app/nested", false), ("/work/app", true)]
        .into_iter()
        .map(|(path, has_git)| Ancestor { path: path.to_owned(), has_git })
        .collect();
    let git_root = find_git_root(&ancestors).unwrap();
    assert_eq!(git_root, "/work/app");

    let project =
        resolve_project_from(&git_root, "/agira", CandidateSeen::Missing, CandidateSeen::Missing)
            .unwrap();

    assert_eq!(project.resolution, CandidateResolution::Create);
    assert_eq!(project.state_dir, "/agira/app");
    assert_eq!(source_path_content(&git_root), "/work/app\n");
}

#[test]
fn same_project_twice_uses_same_slug() {
    let owned = CandidateSeen::Owned { source_path: source_path_content("/work/app") };

    let first = resolve_project_from(
        "/work/app",
        "/agira",
        CandidateSeen::Missing,
        CandidateSeen::Missing,
    )
    .unwrap();
    let second =
        resolve_project_from("/work/app", "/agira", owned, CandidateSeen::Missing).unwrap();

    assert_eq!(first.slug, second.slug);
    assert_eq!(second.resolution, CandidateResolution::Use);
}

#[test]
fn collision_uses_hashed_slug_for_second_project() {
    let first = resolve_project_from(
        "/one/same",
        "/agira",
        CandidateSeen::Missing,
        CandidateSeen::Missing,
    )
    .unwrap();
    let taken = CandidateSeen::Owned { source_path: source_path_content("/one/same") };
    let second =
        resolve_project_from("/two/same", "/agira", taken, CandidateSeen::Missing).unwrap();
    let expected_second_slug = format!("same-{}", hash_suffix("/two/same"));

    assert_eq!(first.slug, "same");
    assert_eq!(second.slug, expected_second_slug);
    assert_ne!(first.slug, second.slug);
}

#[test]
fn the_suffix_is_the_start_of_a_digest() {
    assert_eq!(hash_suffix("abc"), "ba7816");
    assert_ne!(hash_suffix("/one/same"), hash_suffix("/two/same"));
}

#[test]
fn a_place_that_cannot_be_used_is_reported() {
    let taken = || CandidateSeen::Owned { source_path: "/elsewhere".to_owned() };
    assert!(matches!(
        resolve_project_from("/work/app", "/agira", taken(), taken()),
        Err(ProjectError::HashSlugCollision { .. })
    ));
    assert!(matches!(
        resolve_project_from(
            "/work/app",
            "/agira",
            CandidateSeen::SourceUnreadable { message: "m".to_owned() },
            taken()
        ),
        Err(ProjectError::SourcePathRead { .. })
    ));
    assert_eq!(
        resolve_project_from(
            "/work/app",
            "/agira",
            CandidateSeen::Unowned { empty: true },
            taken()
        )
        .unwrap()
        .resolution,
        CandidateResolution::Claim
    );
    assert_eq!(find_git_root(&[]), Err(ProjectError::NotInGitRepository));
}
