pub mod api_key_middleware;
