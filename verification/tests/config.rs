use std::path::PathBuf;

use trident::config::{AppPaths, DATABASE_FILE_NAME, LOG_DIRECTORY_NAME};

#[test]
fn keeps_the_database_and_logs_inside_the_data_directory() {
    let paths = AppPaths::from_root(PathBuf::from("/data/Trident"));

    assert_eq!(paths.root(), &PathBuf::from("/data/Trident"));
    assert_eq!(paths.database_path(), PathBuf::from("/data/Trident").join(DATABASE_FILE_NAME));
    assert_eq!(paths.log_dir(), PathBuf::from("/data/Trident").join(LOG_DIRECTORY_NAME));
    assert_eq!(paths.log_dir().file_name().and_then(|name| name.to_str()), Some("logs"));
    assert_eq!(paths.database_path().file_name().and_then(|name| name.to_str()), Some("trident.db"));
    assert_ne!(paths.database_path(), paths.root().clone());
    assert_eq!(paths.log_dir().parent(), Some(paths.root().as_path()));
    assert_eq!(paths.database_path().parent(), Some(paths.root().as_path()));
    assert_ne!(paths.log_dir(), paths.database_path());
}
