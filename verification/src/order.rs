//! Orders of products.

use vstd::prelude::*;

verus! {

/// An order of one product. No rules are defined for orders yet: the two
/// dates are texts of no stated format and there is no validating
/// constructor, so whoever assembles an order answers for what it holds.
#[derive(Debug, PartialEq)]
pub struct Order {
    pub order_id: String,
    pub product_id: String,
    pub ordered_date: String,
    pub expected_date: String,
}

/// What an order holds, as plain sequences of characters.
pub struct OrderView {
    pub order_id: Seq<char>,
    pub product_id: Seq<char>,
    pub ordered_date: Seq<char>,
    pub expected_date: Seq<char>,
}

impl View for Order {
    type V = OrderView;

    open spec fn view(&self) -> OrderView {
        OrderView {
            order_id: self.order_id@,
            product_id: self.product_id@,
            ordered_date: self.ordered_date@,
            expected_date: self.expected_date@,
        }
    }
}

impl Clone for Order {
    fn clone(&self) -> (copy: Order)
        ensures
            copy@ == self@,
    {
        Order {
            order_id: self.order_id.clone(),
            product_id: self.product_id.clone(),
            ordered_date: self.ordered_date.clone(),
            expected_date: self.expected_date.clone(),
        }
    }
}

impl Default for Order {
    fn default() -> (order: Order)
        ensures
            order@ == (OrderView {
                order_id: Seq::empty(),
                product_id: Seq::empty(),
                ordered_date: Seq::empty(),
                expected_date: Seq::empty(),
            }),
    {
        Order {
            order_id: String::new(),
            product_id: String::new(),
            ordered_date: String::new(),
            expected_date: String::new(),
        }
    }
}

} // verus!
