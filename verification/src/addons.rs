pub mod scrape;
