pub mod feed;
pub mod homepage;
pub mod pages;
pub mod post;
pub mod posts;
pub mod search;
pub mod sitemap;
