pub mod metric_screws;
