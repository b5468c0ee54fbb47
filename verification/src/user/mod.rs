pub mod dto;
pub mod entity;
pub mod handler;
pub mod login_type;
pub mod password_hash;
pub mod repository;
pub mod usecase;
pub mod validator;
