use paimon::error::{ErrorKind, Reach};
use paimon::utils::download_misc::DownloadMisc;
use paimon::utils::file::FileMisc;
use paimon::utils::validation::Validate;

#[test]
fn status_of_the_probe() {
    assert_eq!(Validate::check_url_status(200), Ok(()));
    assert_eq!(Validate::check_url_status(204), Ok(()));
    assert_eq!(Validate::check_url_status(299), Ok(()));
    assert_eq!(Validate::check_url_status(199), Err(ErrorKind::Validation));
    assert_eq!(Validate::check_url_status(300), Err(ErrorKind::Validation));
    assert_eq!(Validate::check_url_status(404), Err(ErrorKind::Validation));
    assert_eq!(Validate::check_url_status(0), Err(ErrorKind::Validation));
}

#[test]
fn extension_of_a_name() {
    assert_eq!(Validate::validate_file_type("a.pdf", ".pdf"), Ok(()));
    assert_eq!(Validate::validate_file_type("list.txt", ".txt"), Ok(()));
    assert_eq!(Validate::validate_file_type("a.txt", ".pdf"), Err(ErrorKind::Validation));
    assert_eq!(Validate::validate_file_type("pdf", ".pdf"), Err(ErrorKind::Validation));
    assert_eq!(Validate::validate_file_type("a.PDF", ".pdf"), Err(ErrorKind::Validation));
}

#[test]
fn document_content_type() {
    assert!(DownloadMisc::is_pdf_file(Some("application/pdf")));
    assert!(DownloadMisc::is_pdf_file(Some(" application/pdf; charset=binary")));
    assert!(!DownloadMisc::is_pdf_file(Some("text/html")));
    assert!(!DownloadMisc::is_pdf_file(Some("")));
    assert!(!DownloadMisc::is_pdf_file(None));
}

#[test]
fn output_path_joins_directory_and_name() {
    assert_eq!(FileMisc::get_output_path("./", "a.pdf"), "./a.pdf");
    assert_eq!(FileMisc::get_output_path("papers", "a.pdf"), "papers/a.pdf");
    assert_eq!(FileMisc::get_output_path("papers/", "a.pdf"), "papers/a.pdf");
    assert_eq!(FileMisc::get_output_path("", "a.pdf"), "a.pdf");
}

#[test]
fn creating_the_directory_again_is_no_error() {
    assert_eq!(FileMisc::directory_ready(true, false), Ok(()));
    assert_eq!(FileMisc::directory_ready(false, true), Ok(()));
    assert_eq!(FileMisc::directory_ready(true, true), Ok(()));
    assert_eq!(FileMisc::directory_ready(false, false), Err(ErrorKind::Filesystem));
}

#[test]
fn how_far_each_failure_reaches() {
    assert_eq!(ErrorKind::Validation.reach(false), Reach::Item);
    assert_eq!(ErrorKind::Validation.reach(true), Reach::Item);
    assert_eq!(ErrorKind::Resolution.reach(false), Reach::Item);
    assert_eq!(ErrorKind::Resolution.reach(true), Reach::Item);
    assert_eq!(ErrorKind::Transport.reach(false), Reach::Item);
    assert_eq!(ErrorKind::Transport.reach(true), Reach::Run);
    assert_eq!(ErrorKind::Parse.reach(false), Reach::Item);
    assert_eq!(ErrorKind::Parse.reach(true), Reach::Run);
    assert_eq!(ErrorKind::Filesystem.reach(false), Reach::Item);
    assert_eq!(ErrorKind::Filesystem.reach(true), Reach::Run);
    assert_eq!(ErrorKind::Delivery.reach(false), Reach::Line);
    assert_eq!(ErrorKind::Delivery.reach(true), Reach::Line);
}
