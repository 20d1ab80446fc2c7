pub mod init;
pub mod lock_pool;
pub mod swap;
pub mod withdraw;
