pub mod text;

pub mod entropy;
pub mod clipboard;
pub mod cmd;
pub mod env;
pub mod err;
pub mod gpg;
pub mod password;
pub mod tempfile;
