pub mod db_user_ext;
