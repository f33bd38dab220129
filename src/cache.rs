use vstd::prelude::*;
use crate::decimal::{decimal, decimal_string};

verus! {

fn key(prefix: &str, id: &str) -> (r: String)
    ensures
        r@ == prefix@ + id@,
{
    String::from_str(prefix).concat(id)
}

pub fn cache_key_user(user_id: &str) -> (r: String)
    ensures
        r@ == "user:"@ + user_id@,
{
    key("user:", user_id)
}

pub fn cache_key_shop(shop_id: &str) -> (r: String)
    ensures
        r@ == "shop:"@ + shop_id@,
{
    key("shop:", shop_id)
}

pub fn cache_key_product(product_id: &str) -> (r: String)
    ensures
        r@ == "product:"@ + product_id@,
{
    key("product:", product_id)
}

pub fn cache_key_discount(discount_id: &str) -> (r: String)
    ensures
        r@ == "discount:"@ + discount_id@,
{
    key("discount:", discount_id)
}

pub fn cache_key_search(query: &str, page: u32, limit: u32) -> (r: String)
    ensures
        r@ == "search:"@ + query@ + ":"@ + decimal(page as nat) + ":"@ + decimal(limit as nat),
{
    let mut s = key("search:", query);
    s.append(":");
    s.append(decimal_string(page as u64).as_str());
    s.append(":");
    s.append(decimal_string(limit as u64).as_str());
    s
}

pub fn cache_key_popular_shops(country: &str, limit: u32) -> (r: String)
    ensures
        r@ == "popular:shops:"@ + country@ + ":"@ + decimal(limit as nat),
{
    let mut s = key("popular:shops:", country);
    s.append(":");
    s.append(decimal_string(limit as u64).as_str());
    s
}

pub fn cache_key_popular_products(category: &str, limit: u32) -> (r: String)
    ensures
        r@ == "popular:products:"@ + category@ + ":"@ + decimal(limit as nat),
{
    let mut s = key("popular:products:", category);
    s.append(":");
    s.append(decimal_string(limit as u64).as_str());
    s
}

pub fn cache_key_user_notifications(user_id: &str) -> (r: String)
    ensures
        r@ == "notifications:"@ + user_id@,
{
    key("notifications:", user_id)
}

} // verus!
