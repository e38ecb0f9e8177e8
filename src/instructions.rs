pub mod create_comment;
pub mod create_post;
pub mod delete_post;
pub mod initialize_blog;
pub mod initialize_profile;
pub mod update_post;
