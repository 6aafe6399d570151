//! Rendering of an order confirmation as an HTML document, with every money
//! amount formatted from cents to a two-decimal string.
use crate::types::{Order, OrderItem};
use vstd::prelude::*;

verus! {

/// The character of one decimal digit.
pub open spec fn dec_digit(d: int) -> char {
    if d == 0 {
        '0'
    } else if d == 1 {
        '1'
    } else if d == 2 {
        '2'
    } else if d == 3 {
        '3'
    } else if d == 4 {
        '4'
    } else if d == 5 {
        '5'
    } else if d == 6 {
        '6'
    } else if d == 7 {
        '7'
    } else if d == 8 {
        '8'
    } else {
        '9'
    }
}

/// The decimal representation of a natural number, most significant digit
/// first.
pub open spec fn dec_rep(n: nat) -> Seq<char>
    decreases n,
{
    if n < 10 {
        seq![dec_digit(n as int)]
    } else {
        dec_rep(n / 10) + seq![dec_digit((n % 10) as int)]
    }
}

/// An amount of cents rendered with two decimals, as `-` plus the magnitude
/// when negative.
pub open spec fn cents_text(c: int) -> Seq<char> {
    if c < 0 {
        seq!['-'] + cents_text_nn(-c as nat)
    } else {
        cents_text_nn(c as nat)
    }
}

/// A non-negative amount of cents rendered with two decimals.
pub open spec fn cents_text_nn(c: nat) -> Seq<char> {
    dec_rep(c / 100) + seq!['.'] + seq![dec_digit(((c % 100) / 10) as int)] + seq![
        dec_digit((c % 10) as int),
    ]
}

fn digit_str(d: u128) -> (r: &'static str)
    requires
        d < 10,
    ensures
        r@ == seq![dec_digit(d as int)],
{
    proof {
        reveal_strlit("0");
        reveal_strlit("1");
        reveal_strlit("2");
        reveal_strlit("3");
        reveal_strlit("4");
        reveal_strlit("5");
        reveal_strlit("6");
        reveal_strlit("7");
        reveal_strlit("8");
        reveal_strlit("9");
    }
    match d {
        0 => "0",
        1 => "1",
        2 => "2",
        3 => "3",
        4 => "4",
        5 => "5",
        6 => "6",
        7 => "7",
        8 => "8",
        _ => "9",
    }
}

/// The decimal text of a natural number.
pub fn u128_text(n: u128) -> (r: String)
    ensures
        r@ == dec_rep(n as nat),
    decreases n,
{
    if n < 10 {
        digit_str(n).to_owned()
    } else {
        let mut r = u128_text(n / 10);
        r.append(digit_str(n % 10));
        proof {
            assert(r@ =~= dec_rep(n as nat));
        }
        r
    }
}

/// The decimal text of a signed count.
pub fn i64_text(n: i64) -> (r: String)
    ensures
        n >= 0 ==> r@ == dec_rep(n as nat),
        n < 0 ==> r@ == seq!['-'] + dec_rep((-(n as int)) as nat),
{
    if n >= 0 {
        u128_text(n as u128)
    } else {
        let mut r = String::new();
        r.append("-");
        let magnitude: u128 = (-(n as i128)) as u128;
        let tail = u128_text(magnitude);
        r.append(tail.as_str());
        proof {
            reveal_strlit("-");
            assert(r@ =~= seq!['-'] + dec_rep((-(n as int)) as nat));
        }
        r
    }
}

/// An amount of cents as two-decimal text.
pub fn cents_to_string(c: i128) -> (r: String)
    requires
        c > i128::MIN,
    ensures
        r@ == cents_text(c as int),
{
    let neg = c < 0;
    let magnitude: u128 = if neg {
        (-c) as u128
    } else {
        c as u128
    };
    let mut r = String::new();
    if neg {
        r.append("-");
        proof {
            reveal_strlit("-");
            assert(r@ =~= seq!['-']);
        }
    }
    let euros = u128_text(magnitude / 100);
    r.append(euros.as_str());
    r.append(".");
    r.append(digit_str((magnitude % 100) / 10));
    r.append(digit_str(magnitude % 10));
    proof {
        reveal_strlit(".");
        if neg {
            assert(magnitude as nat == (-(c as int)) as nat);
            assert(r@ =~= seq!['-'] + cents_text_nn((-(c as int)) as nat));
        } else {
            assert(magnitude as nat == c as nat);
            assert(r@ =~= cents_text_nn(c as nat));
        }
    }
    r
}

/// The decimal text of a signed number.
pub open spec fn int_text(n: int) -> Seq<char> {
    if n < 0 {
        seq!['-'] + dec_rep((-n) as nat)
    } else {
        dec_rep(n as nat)
    }
}

/// One line item's table row, with the price and the line subtotal in cents
/// rendered as two-decimal amounts.
pub open spec fn item_row_html(it: OrderItem) -> Seq<char> {
    "<tr>\n                <td>"@ + int_text(it.article.article_id as int)
        + "</td>\n                <td>"@ + it.article.name@ + "</td>\n                <td>"@
        + int_text(it.quantity as int) + "</td>\n                <td>"@ + cents_text(
        it.article.price as int,
    ) + " \u{20ac}</td>\n                <td>"@ + cents_text(
        it.article.price as int * it.quantity as int,
    ) + " \u{20ac}</td>\n            </tr>"@
}

/// The table rows of all line items, in order.
pub open spec fn items_html(items: Seq<OrderItem>) -> Seq<char>
    decreases items.len(),
{
    if items.len() == 0 {
        Seq::empty()
    } else {
        items_html(items.drop_last()) + item_row_html(items.last())
    }
}

/// The order's total amount in cents: each line's price times quantity,
/// summed.
pub open spec fn items_total(items: Seq<OrderItem>) -> int
    decreases items.len(),
{
    if items.len() == 0 {
        0
    } else {
        items_total(items.drop_last()) + items.last().article.price as int
            * items.last().quantity as int
    }
}

proof fn lemma_items_total_bound(items: Seq<OrderItem>)
    ensures
        -(items.len() as int) * 0x8000_0000_0000_0000 <= items_total(items) <= (
        items.len() as int) * 0x8000_0000_0000_0000,
    decreases items.len(),
{
    if items.len() > 0 {
        lemma_items_total_bound(items.drop_last());
        let last = items.last();
        assert(-0x8000_0000_0000_0000 <= last.article.price as int * last.quantity as int
            <= 0x8000_0000_0000_0000) by (nonlinear_arith)
            requires
                0 <= last.article.price as int,
                (last.article.price as int) < 0x1_0000_0000,
                -0x8000_0000 <= last.quantity as int,
                (last.quantity as int) < 0x8000_0000;
    }
}

fn render_item_row(it: &OrderItem) -> (r: String)
    ensures
        r@ == item_row_html(*it),
{
    proof {
        assert(-0x8000_0000_0000_0000 <= it.article.price as int * it.quantity as int
            <= 0x8000_0000_0000_0000) by (nonlinear_arith)
            requires
                0 <= it.article.price as int,
                (it.article.price as int) < 0x1_0000_0000,
                -0x8000_0000 <= it.quantity as int,
                (it.quantity as int) < 0x8000_0000;
    }
    let subtotal: i128 = it.article.price as i128 * it.quantity as i128;
    let mut r = String::new();
    r.append("<tr>\n                <td>");
    let id_text = i64_text(it.article.article_id as i64);
    r.append(id_text.as_str());
    r.append("</td>\n                <td>");
    r.append(it.article.name.as_str());
    r.append("</td>\n                <td>");
    let qty_text = i64_text(it.quantity as i64);
    r.append(qty_text.as_str());
    r.append("</td>\n                <td>");
    let price_text = cents_to_string(it.article.price as i128);
    r.append(price_text.as_str());
    r.append(" \u{20ac}</td>\n                <td>");
    let subtotal_text = cents_to_string(subtotal);
    r.append(subtotal_text.as_str());
    r.append(" \u{20ac}</td>\n            </tr>");
    proof {
        assert(r@ =~= item_row_html(*it));
    }
    r
}

/// The full order-confirmation document.
pub open spec fn order_html(o: Order) -> Seq<char> {
    html_head() + o.customer.first_name@ + " "@ + o.customer.last_name@ + "<br>\n            "@
        + o.customer.street@ + "<br>\n            "@ + o.customer.email@ + html_details()
        + int_text(o.order_id as int) + "<br>\n        <strong>Date:</strong> "@ + o.date@
        + html_table_head() + items_html(o.items@) + html_total_row() + cents_text(
        items_total(o.items@),
    ) + html_tail()
}

/// Everything up to the customer's name.
pub open spec fn html_head() -> Seq<char> {
    "<!DOCTYPE html>\n<html lang=\"de\">\n<head>\n    <meta charset=\"UTF-8\">\n    <title>Order Confirmation</title>\n    <style>\n        body { font-family: Arial, sans-serif; margin: 40px; }\n        .header { text-align: center; font-size: 24px; font-weight: bold; margin-bottom: 20px; }\n        .company-info, .customer-info, .order-details { margin-bottom: 20px; }\n        .table { width: 100%; border-collapse: collapse; }\n        .table th, .table td { border: 1px solid black; padding: 8px; text-align: left; }\n        .footer { margin-top: 470px; font-size: 12px; text-align: center; }\n        .info-container { display: flex; justify-content: space-between; }\n    </style>\n</head>\n<body>\n\n    <div class=\"header\">Order Confirmation</div>\n\n    <div class=\"info-container\">\n        <div class=\"company-info\">\n            Example Company<br>\n            Example Street 1, 12345 City<br>\n            contact@example.de<br>\n        </div>\n        <div class=\"customer-info\">\n            "@
}

/// From the customer block to the order id.
pub open spec fn html_details() -> Seq<char> {
    "\n        </div>\n    </div>\n\n    <div class=\"order-details\">\n        <strong>Order-ID:</strong> "@
}

/// From the date to the item rows.
pub open spec fn html_table_head() -> Seq<char> {
    "\n    </div>\n\n    <table class=\"table\">\n        <tr>\n            <th>Article-ID</th>\n            <th>Article</th>\n            <th>Quantity</th>\n            <th>Price</th>\n            <th>Total Price</th>\n        </tr>\n        "@
}

/// The total row up to the total amount.
pub open spec fn html_total_row() -> Seq<char> {
    "\n        <tr>\n            <td colspan=\"4\" style=\"text-align: right;\"><strong>Total amount</strong></td>\n            <td><strong>"@
}

/// Everything after the total amount.
pub open spec fn html_tail() -> Seq<char> {
    " \u{20ac}</strong></td>\n        </tr>\n    </table>\n\n    <div class=\"footer\">\n        Thank you for your order!<br>\n        Please transfer the amount to our account within 14 days.<br>\n        Example Company \u{2013} VAT ID No.: DE123456789 \u{2013} IBAN: DE12 3456 7890 1234 5678 90\n    </div>\n\n</body>\n</html>\n"@
}

/// Renders the order confirmation: company header, customer block, order id
/// and date, one table row per line item, and the total amount.
pub fn get_html(order: &Order) -> (r: String)
    requires
        order.items@.len() <= 0x20_0000,
    ensures
        r@ == order_html(*order),
{
    let mut rows = String::new();
    let mut total: i128 = 0;
    let n = order.items.len();
    let mut i: usize = 0;
    while i < n
        invariant
            n == order.items@.len(),
            n <= 0x20_0000,
            i <= n,
            rows@ == items_html(order.items@.take(i as int)),
            total == items_total(order.items@.take(i as int)),
            -(i as int) * 0x8000_0000_0000_0000 <= total <= (i as int) * 0x8000_0000_0000_0000,
        decreases n - i,
    {
        proof {
            assert(order.items@.take(i as int + 1).drop_last() =~= order.items@.take(i as int));
            assert(order.items@.take(i as int + 1).last() == order.items@[i as int]);
        }
        let row = render_item_row(&order.items[i]);
        rows.append(row.as_str());
        let it = &order.items[i];
        proof {
            assert(-0x8000_0000_0000_0000 <= it.article.price as int * it.quantity as int
                <= 0x8000_0000_0000_0000) by (nonlinear_arith)
                requires
                    0 <= it.article.price as int,
                    (it.article.price as int) < 0x1_0000_0000,
                    -0x8000_0000 <= it.quantity as int,
                    (it.quantity as int) < 0x8000_0000;
        }
        total = total + it.article.price as i128 * it.quantity as i128;
        i = i + 1;
    }
    proof {
        assert(order.items@.take(n as int) =~= order.items@);
        lemma_items_total_bound(order.items@);
    }
    let mut r = String::new();
    r.append("<!DOCTYPE html>\n<html lang=\"de\">\n<head>\n    <meta charset=\"UTF-8\">\n    <title>Order Confirmation</title>\n    <style>\n        body { font-family: Arial, sans-serif; margin: 40px; }\n        .header { text-align: center; font-size: 24px; font-weight: bold; margin-bottom: 20px; }\n        .company-info, .customer-info, .order-details { margin-bottom: 20px; }\n        .table { width: 100%; border-collapse: collapse; }\n        .table th, .table td { border: 1px solid black; padding: 8px; text-align: left; }\n        .footer { margin-top: 470px; font-size: 12px; text-align: center; }\n        .info-container { display: flex; justify-content: space-between; }\n    </style>\n</head>\n<body>\n\n    <div class=\"header\">Order Confirmation</div>\n\n    <div class=\"info-container\">\n        <div class=\"company-info\">\n            Example Company<br>\n            Example Street 1, 12345 City<br>\n            contact@example.de<br>\n        </div>\n        <div class=\"customer-info\">\n            ");
    r.append(order.customer.first_name.as_str());
    r.append(" ");
    r.append(order.customer.last_name.as_str());
    r.append("<br>\n            ");
    r.append(order.customer.street.as_str());
    r.append("<br>\n            ");
    r.append(order.customer.email.as_str());
    r.append("\n        </div>\n    </div>\n\n    <div class=\"order-details\">\n        <strong>Order-ID:</strong> ");
    let id_text = i64_text(order.order_id as i64);
    r.append(id_text.as_str());
    r.append("<br>\n        <strong>Date:</strong> ");
    r.append(order.date.as_str());
    r.append("\n    </div>\n\n    <table class=\"table\">\n        <tr>\n            <th>Article-ID</th>\n            <th>Article</th>\n            <th>Quantity</th>\n            <th>Price</th>\n            <th>Total Price</th>\n        </tr>\n        ");
    r.append(rows.as_str());
    r.append("\n        <tr>\n            <td colspan=\"4\" style=\"text-align: right;\"><strong>Total amount</strong></td>\n            <td><strong>");
    let total_text = cents_to_string(total);
    r.append(total_text.as_str());
    r.append(" \u{20ac}</strong></td>\n        </tr>\n    </table>\n\n    <div class=\"footer\">\n        Thank you for your order!<br>\n        Please transfer the amount to our account within 14 days.<br>\n        Example Company \u{2013} VAT ID No.: DE123456789 \u{2013} IBAN: DE12 3456 7890 1234 5678 90\n    </div>\n\n</body>\n</html>\n");
    proof {
        assert(r@ =~= order_html(*order));
    }
    r
}

} // verus!
