pub mod chars;
pub mod num;
pub mod str;
pub mod yaml;
pub mod csv_table;
pub mod db;
pub mod io;
pub mod steps;
pub mod etl;
