pub mod app;
pub mod detail;
pub mod django_format;
pub mod entry;
pub mod go_format;
pub mod input;
pub mod json_format;
pub mod laravel_format;
pub mod level;
pub mod nginx_format;
pub mod parser;
pub mod pattern;
pub mod remote;
pub mod text;
pub mod view;
