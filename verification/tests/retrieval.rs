use mov_converter::outcome::Status;
use mov_converter::retrieval::{download, download_path, Retrieval};

#[test]
fn missing_artifact_is_answered_with_404() {
    for name in ["4f1c2a9e-0000-4000-8000-000000000000.mp4", "nope", "", "a/b.mp4"] {
        let answer = download(name, false);
        assert_eq!(answer.status(), Status::NotFound);
        assert_eq!(answer.status().code(), 404);
        assert_ne!(answer.status().code(), 200);
        match answer {
            Retrieval::Missing { message } => assert_eq!(message, "File not found"),
            Retrieval::Serve { .. } => panic!("a missing artifact was served"),
        }
    }
}

#[test]
fn present_artifact_is_served_from_the_output_directory() {
    let answer = download("abc.mp4", true);
    assert_eq!(answer.status().code(), 200);
    match answer {
        Retrieval::Serve { path } => {
            assert_eq!(path, "output/abc.mp4");
            assert_eq!(path, download_path("abc.mp4"));
        }
        Retrieval::Missing { .. } => panic!("a present artifact was not served"),
    }
}

#[test]
fn download_path_is_under_output() {
    assert_eq!(download_path("x.mp4"), "output/x.mp4");
}
