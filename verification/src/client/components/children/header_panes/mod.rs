pub mod project_name;
