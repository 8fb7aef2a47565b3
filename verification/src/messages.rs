//! The request and response messages of the `grpc_services.GRPCServices`
//! service. A double field holds the IEEE 754 bit pattern of its value.

use vstd::prelude::*;
use crate::message::{ProtoList, ProtoMessage};
use crate::record::{
    defaults, kind_of, opt_chars, opt_str_scalar, pop_double, pop_int64, pop_opt_double, pop_opt_int64,
    pop_opt_str, pop_str, values_of, Kind, Scalar, ScalarValue,
};

verus! {

#[derive(Clone, Debug)]
pub struct CreateCartItemRequest {
    pub user_id: i64,
    pub product_id: i64,
    pub quantity: i64,
}

impl ProtoMessage for CreateCartItemRequest {
    open spec fn spec_schema() -> Seq<Kind> {
        seq![Kind::Int64, Kind::Int64, Kind::Int64]
    }

    open spec fn spec_values(&self) -> Seq<ScalarValue> {
        seq![
            ScalarValue::Int64(self.user_id),
            ScalarValue::Int64(self.product_id),
            ScalarValue::Int64(self.quantity),
        ]
    }

    fn schema() -> (r: Vec<Kind>) {
        vec![Kind::Int64, Kind::Int64, Kind::Int64]
    }

    fn to_scalars(&self) -> (r: Vec<Scalar>) {
        let r = vec![
            Scalar::Int64(self.user_id),
            Scalar::Int64(self.product_id),
            Scalar::Int64(self.quantity),
        ];
        assert(values_of(r@) =~= self.spec_values());
        r
    }

    fn from_scalars(v: Vec<Scalar>) -> (r: Self) {
        let ghost vals = values_of(v@);
        proof {
            assert(kind_of(vals[0]) == Kind::Int64);
            assert(kind_of(vals[1]) == Kind::Int64);
            assert(kind_of(vals[2]) == Kind::Int64);
        }
        let mut v = v;
        let quantity = pop_int64(&mut v);
        let product_id = pop_int64(&mut v);
        let user_id = pop_int64(&mut v);
        let r = CreateCartItemRequest { user_id, product_id, quantity };
        assert(r.spec_values() =~= vals);
        r
    }

    proof fn lemma_schema(&self) {
        let vals = self.spec_values();
        let schema = Self::spec_schema();
        assert(vals.len() == 3 && schema.len() == 3);
        assert forall|i: int| 0 <= i < vals.len() implies #[trigger] kind_of(vals[i]) == schema[i] by {
            if i == 0 {} else if i == 1 {} else {}
        }
    }
}

impl Default for CreateCartItemRequest {
    fn default() -> (r: Self)
        ensures
            r.spec_values() == defaults(Self::spec_schema()),
    {
        let r = CreateCartItemRequest { user_id: 0, product_id: 0, quantity: 0 };
        assert(r.spec_values() =~= defaults(Self::spec_schema()));
        r
    }
}

#[derive(Clone, Debug)]
pub struct GetCartItemsRequest {
    pub user_id: i64,
}

impl ProtoMessage for GetCartItemsRequest {
    open spec fn spec_schema() -> Seq<Kind> {
        seq![Kind::Int64]
    }

    open spec fn spec_values(&self) -> Seq<ScalarValue> {
        seq![
            ScalarValue::Int64(self.user_id),
        ]
    }

    fn schema() -> (r: Vec<Kind>) {
        vec![Kind::Int64]
    }

    fn to_scalars(&self) -> (r: Vec<Scalar>) {
        let r = vec![
            Scalar::Int64(self.user_id),
        ];
        assert(values_of(r@) =~= self.spec_values());
        r
    }

    fn from_scalars(v: Vec<Scalar>) -> (r: Self) {
        let ghost vals = values_of(v@);
        proof {
            assert(kind_of(vals[0]) == Kind::Int64);
        }
        let mut v = v;
        let user_id = pop_int64(&mut v);
        let r = GetCartItemsRequest { user_id };
        assert(r.spec_values() =~= vals);
        r
    }

    proof fn lemma_schema(&self) {
        let vals = self.spec_values();
        let schema = Self::spec_schema();
        assert(vals.len() == 1 && schema.len() == 1);
        assert forall|i: int| 0 <= i < vals.len() implies #[trigger] kind_of(vals[i]) == schema[i] by {
            assert(i == 0);
        }
    }
}

impl Default for GetCartItemsRequest {
    fn default() -> (r: Self)
        ensures
            r.spec_values() == defaults(Self::spec_schema()),
    {
        let r = GetCartItemsRequest { user_id: 0 };
        assert(r.spec_values() =~= defaults(Self::spec_schema()));
        r
    }
}

#[derive(Clone, Debug)]
pub struct UpdateCartItemRequest {
    pub cart_id: i64,
    pub user_id: i64,
    pub product_id: i64,
    pub quantity: i64,
}

impl ProtoMessage for UpdateCartItemRequest {
    open spec fn spec_schema() -> Seq<Kind> {
        seq![Kind::Int64, Kind::Int64, Kind::Int64, Kind::Int64]
    }

    open spec fn spec_values(&self) -> Seq<ScalarValue> {
        seq![
            ScalarValue::Int64(self.cart_id),
            ScalarValue::Int64(self.user_id),
            ScalarValue::Int64(self.product_id),
            ScalarValue::Int64(self.quantity),
        ]
    }

    fn schema() -> (r: Vec<Kind>) {
        vec![Kind::Int64, Kind::Int64, Kind::Int64, Kind::Int64]
    }

    fn to_scalars(&self) -> (r: Vec<Scalar>) {
        let r = vec![
            Scalar::Int64(self.cart_id),
            Scalar::Int64(self.user_id),
            Scalar::Int64(self.product_id),
            Scalar::Int64(self.quantity),
        ];
        assert(values_of(r@) =~= self.spec_values());
        r
    }

    fn from_scalars(v: Vec<Scalar>) -> (r: Self) {
        let ghost vals = values_of(v@);
        proof {
            assert(kind_of(vals[0]) == Kind::Int64);
            assert(kind_of(vals[1]) == Kind::Int64);
            assert(kind_of(vals[2]) == Kind::Int64);
            assert(kind_of(vals[3]) == Kind::Int64);
        }
        let mut v = v;
        let quantity = pop_int64(&mut v);
        let product_id = pop_int64(&mut v);
        let user_id = pop_int64(&mut v);
        let cart_id = pop_int64(&mut v);
        let r = UpdateCartItemRequest { cart_id, user_id, product_id, quantity };
        assert(r.spec_values() =~= vals);
        r
    }

    proof fn lemma_schema(&self) {
        let vals = self.spec_values();
        let schema = Self::spec_schema();
        assert(vals.len() == 4 && schema.len() == 4);
        assert forall|i: int| 0 <= i < vals.len() implies #[trigger] kind_of(vals[i]) == schema[i] by {
            if i == 0 {} else if i == 1 {} else if i == 2 {} else {}
        }
    }
}

impl Default for UpdateCartItemRequest {
    fn default() -> (r: Self)
        ensures
            r.spec_values() == defaults(Self::spec_schema()),
    {
        let r = UpdateCartItemRequest { cart_id: 0, user_id: 0, product_id: 0, quantity: 0 };
        assert(r.spec_values() =~= defaults(Self::spec_schema()));
        r
    }
}

#[derive(Clone, Debug)]
pub struct DeleteCartItemRequest {
    pub cart_id: i64,
}

impl ProtoMessage for DeleteCartItemRequest {
    open spec fn spec_schema() -> Seq<Kind> {
        seq![Kind::Int64]
    }

    open spec fn spec_values(&self) -> Seq<ScalarValue> {
        seq![
            ScalarValue::Int64(self.cart_id),
        ]
    }

    fn schema() -> (r: Vec<Kind>) {
        vec![Kind::Int64]
    }

    fn to_scalars(&self) -> (r: Vec<Scalar>) {
        let r = vec![
            Scalar::Int64(self.cart_id),
        ];
        assert(values_of(r@) =~= self.spec_values());
        r
    }

    fn from_scalars(v: Vec<Scalar>) -> (r: Self) {
        let ghost vals = values_of(v@);
        proof {
            assert(kind_of(vals[0]) == Kind::Int64);
        }
        let mut v = v;
        let cart_id = pop_int64(&mut v);
        let r = DeleteCartItemRequest { cart_id };
        assert(r.spec_values() =~= vals);
        r
    }

    proof fn lemma_schema(&self) {
        let vals = self.spec_values();
        let schema = Self::spec_schema();
        assert(vals.len() == 1 && schema.len() == 1);
        assert forall|i: int| 0 <= i < vals.len() implies #[trigger] kind_of(vals[i]) == schema[i] by {
            assert(i == 0);
        }
    }
}

impl Default for DeleteCartItemRequest {
    fn default() -> (r: Self)
        ensures
            r.spec_values() == defaults(Self::spec_schema()),
    {
        let r = DeleteCartItemRequest { cart_id: 0 };
        assert(r.spec_values() =~= defaults(Self::spec_schema()));
        r
    }
}

#[derive(Clone, Debug)]
pub struct CartItemResponse {
    pub cart_id: i64,
    pub user_id: i64,
    pub product_id: i64,
    pub quantity: i64,
}

impl ProtoMessage for CartItemResponse {
    open spec fn spec_schema() -> Seq<Kind> {
        seq![Kind::Int64, Kind::Int64, Kind::Int64, Kind::Int64]
    }

    open spec fn spec_values(&self) -> Seq<ScalarValue> {
        seq![
            ScalarValue::Int64(self.cart_id),
            ScalarValue::Int64(self.user_id),
            ScalarValue::Int64(self.product_id),
            ScalarValue::Int64(self.quantity),
        ]
    }

    fn schema() -> (r: Vec<Kind>) {
        vec![Kind::Int64, Kind::Int64, Kind::Int64, Kind::Int64]
    }

    fn to_scalars(&self) -> (r: Vec<Scalar>) {
        let r = vec![
            Scalar::Int64(self.cart_id),
            Scalar::Int64(self.user_id),
            Scalar::Int64(self.product_id),
            Scalar::Int64(self.quantity),
        ];
        assert(values_of(r@) =~= self.spec_values());
        r
    }

    fn from_scalars(v: Vec<Scalar>) -> (r: Self) {
        let ghost vals = values_of(v@);
        proof {
            assert(kind_of(vals[0]) == Kind::Int64);
            assert(kind_of(vals[1]) == Kind::Int64);
            assert(kind_of(vals[2]) == Kind::Int64);
            assert(kind_of(vals[3]) == Kind::Int64);
        }
        let mut v = v;
        let quantity = pop_int64(&mut v);
        let product_id = pop_int64(&mut v);
        let user_id = pop_int64(&mut v);
        let cart_id = pop_int64(&mut v);
        let r = CartItemResponse { cart_id, user_id, product_id, quantity };
        assert(r.spec_values() =~= vals);
        r
    }

    proof fn lemma_schema(&self) {
        let vals = self.spec_values();
        let schema = Self::spec_schema();
        assert(vals.len() == 4 && schema.len() == 4);
        assert forall|i: int| 0 <= i < vals.len() implies #[trigger] kind_of(vals[i]) == schema[i] by {
            if i == 0 {} else if i == 1 {} else if i == 2 {} else {}
        }
    }
}

impl Default for CartItemResponse {
    fn default() -> (r: Self)
        ensures
            r.spec_values() == defaults(Self::spec_schema()),
    {
        let r = CartItemResponse { cart_id: 0, user_id: 0, product_id: 0, quantity: 0 };
        assert(r.spec_values() =~= defaults(Self::spec_schema()));
        r
    }
}

#[derive(Clone, Debug)]
pub struct CartItemsResponse {
    pub items: Vec<CartItemResponse>,
}

impl ProtoList for CartItemsResponse {
    type Item = CartItemResponse;

    open spec fn spec_items(&self) -> Seq<CartItemResponse> {
        self.items@
    }

    fn items(&self) -> (r: &Vec<CartItemResponse>) {
        &self.items
    }

    fn from_items(items: Vec<CartItemResponse>) -> (r: Self) {
        CartItemsResponse { items }
    }
}

impl Default for CartItemsResponse {
    fn default() -> (r: Self)
        ensures
            r.spec_items() == Seq::<CartItemResponse>::empty(),
    {
        CartItemsResponse { items: Vec::new() }
    }
}

#[derive(Clone, Debug)]
pub struct CreateProductRequest {
    pub name: String,
    pub description: Option<String>,
    /// IEEE 754 bit pattern.
    pub price: u64,
    pub stock_quantity: Option<i64>,
    pub category_id: Option<i64>,
}

impl ProtoMessage for CreateProductRequest {
    open spec fn spec_schema() -> Seq<Kind> {
        seq![Kind::Str, Kind::OptStr, Kind::Double, Kind::OptInt64, Kind::OptInt64]
    }

    open spec fn spec_values(&self) -> Seq<ScalarValue> {
        seq![
            ScalarValue::Str(self.name@),
            ScalarValue::OptStr(opt_chars(self.description)),
            ScalarValue::Double(self.price),
            ScalarValue::OptInt64(self.stock_quantity),
            ScalarValue::OptInt64(self.category_id),
        ]
    }

    fn schema() -> (r: Vec<Kind>) {
        vec![Kind::Str, Kind::OptStr, Kind::Double, Kind::OptInt64, Kind::OptInt64]
    }

    fn to_scalars(&self) -> (r: Vec<Scalar>) {
        let r = vec![
            Scalar::Str(self.name.clone()),
            opt_str_scalar(&self.description),
            Scalar::Double(self.price),
            Scalar::OptInt64(self.stock_quantity),
            Scalar::OptInt64(self.category_id),
        ];
        assert(values_of(r@) =~= self.spec_values());
        r
    }

    fn from_scalars(v: Vec<Scalar>) -> (r: Self) {
        let ghost vals = values_of(v@);
        proof {
            assert(kind_of(vals[0]) == Kind::Str);
            assert(kind_of(vals[1]) == Kind::OptStr);
            assert(kind_of(vals[2]) == Kind::Double);
            assert(kind_of(vals[3]) == Kind::OptInt64);
            assert(kind_of(vals[4]) == Kind::OptInt64);
        }
        let mut v = v;
        let category_id = pop_opt_int64(&mut v);
        let stock_quantity = pop_opt_int64(&mut v);
        let price = pop_double(&mut v);
        let description = pop_opt_str(&mut v);
        let name = pop_str(&mut v);
        let r = CreateProductRequest { name, description, price, stock_quantity, category_id };
        assert(r.spec_values() =~= vals);
        r
    }

    proof fn lemma_schema(&self) {
        let vals = self.spec_values();
        let schema = Self::spec_schema();
        assert(vals.len() == 5 && schema.len() == 5);
        assert forall|i: int| 0 <= i < vals.len() implies #[trigger] kind_of(vals[i]) == schema[i] by {
            if i == 0 {} else if i == 1 {} else if i == 2 {} else if i == 3 {} else {}
        }
    }
}

impl Default for CreateProductRequest {
    fn default() -> (r: Self)
        ensures
            r.spec_values() == defaults(Self::spec_schema()),
    {
        let r = CreateProductRequest { name: String::new(), description: None, price: 0, stock_quantity: None, category_id: None };
        assert(r.spec_values() =~= defaults(Self::spec_schema()));
        r
    }
}

#[derive(Clone, Debug)]
pub struct SearchProductRequest {
    pub name: Option<String>,
    pub description: Option<String>,
    /// IEEE 754 bit pattern.
    pub starting_price: Option<u64>,
    pub stock_quantity: Option<i64>,
    pub category_id: Option<i64>,
    /// IEEE 754 bit pattern.
    pub ending_price: Option<u64>,
    pub product_id: Option<i64>,
}

impl ProtoMessage for SearchProductRequest {
    open spec fn spec_schema() -> Seq<Kind> {
        seq![Kind::OptStr, Kind::OptStr, Kind::OptDouble, Kind::OptInt64, Kind::OptInt64, Kind::OptDouble, Kind::OptInt64]
    }

    open spec fn spec_values(&self) -> Seq<ScalarValue> {
        seq![
            ScalarValue::OptStr(opt_chars(self.name)),
            ScalarValue::OptStr(opt_chars(self.description)),
            ScalarValue::OptDouble(self.starting_price),
            ScalarValue::OptInt64(self.stock_quantity),
            ScalarValue::OptInt64(self.category_id),
            ScalarValue::OptDouble(self.ending_price),
            ScalarValue::OptInt64(self.product_id),
        ]
    }

    fn schema() -> (r: Vec<Kind>) {
        vec![Kind::OptStr, Kind::OptStr, Kind::OptDouble, Kind::OptInt64, Kind::OptInt64, Kind::OptDouble, Kind::OptInt64]
    }

    fn to_scalars(&self) -> (r: Vec<Scalar>) {
        let r = vec![
            opt_str_scalar(&self.name),
            opt_str_scalar(&self.description),
            Scalar::OptDouble(self.starting_price),
            Scalar::OptInt64(self.stock_quantity),
            Scalar::OptInt64(self.category_id),
            Scalar::OptDouble(self.ending_price),
            Scalar::OptInt64(self.product_id),
        ];
        assert(values_of(r@) =~= self.spec_values());
        r
    }

    fn from_scalars(v: Vec<Scalar>) -> (r: Self) {
        let ghost vals = values_of(v@);
        proof {
            assert(kind_of(vals[0]) == Kind::OptStr);
            assert(kind_of(vals[1]) == Kind::OptStr);
            assert(kind_of(vals[2]) == Kind::OptDouble);
            assert(kind_of(vals[3]) == Kind::OptInt64);
            assert(kind_of(vals[4]) == Kind::OptInt64);
            assert(kind_of(vals[5]) == Kind::OptDouble);
            assert(kind_of(vals[6]) == Kind::OptInt64);
        }
        let mut v = v;
        let product_id = pop_opt_int64(&mut v);
        let ending_price = pop_opt_double(&mut v);
        let category_id = pop_opt_int64(&mut v);
        let stock_quantity = pop_opt_int64(&mut v);
        let starting_price = pop_opt_double(&mut v);
        let description = pop_opt_str(&mut v);
        let name = pop_opt_str(&mut v);
        let r = SearchProductRequest { name, description, starting_price, stock_quantity, category_id, ending_price, product_id };
        assert(r.spec_values() =~= vals);
        r
    }

    proof fn lemma_schema(&self) {
        let vals = self.spec_values();
        let schema = Self::spec_schema();
        assert(vals.len() == 7 && schema.len() == 7);
        assert forall|i: int| 0 <= i < vals.len() implies #[trigger] kind_of(vals[i]) == schema[i] by {
            if i == 0 {} else if i == 1 {} else if i == 2 {} else if i == 3 {} else if i == 4 {} else if i == 5 {} else {}
        }
    }
}

impl Default for SearchProductRequest {
    fn default() -> (r: Self)
        ensures
            r.spec_values() == defaults(Self::spec_schema()),
    {
        let r = SearchProductRequest { name: None, description: None, starting_price: None, stock_quantity: None, category_id: None, ending_price: None, product_id: None };
        assert(r.spec_values() =~= defaults(Self::spec_schema()));
        r
    }
}

#[derive(Clone, Debug)]
pub struct UpdateProductRequest {
    pub name: String,
    pub description: Option<String>,
    /// IEEE 754 bit pattern.
    pub price: u64,
    pub stock_quantity: Option<i64>,
    pub category_id: Option<i64>,
    pub product_id: i64,
}

impl ProtoMessage for UpdateProductRequest {
    open spec fn spec_schema() -> Seq<Kind> {
        seq![Kind::Str, Kind::OptStr, Kind::Double, Kind::OptInt64, Kind::OptInt64, Kind::Int64]
    }

    open spec fn spec_values(&self) -> Seq<ScalarValue> {
        seq![
            ScalarValue::Str(self.name@),
            ScalarValue::OptStr(opt_chars(self.description)),
            ScalarValue::Double(self.price),
            ScalarValue::OptInt64(self.stock_quantity),
            ScalarValue::OptInt64(self.category_id),
            ScalarValue::Int64(self.product_id),
        ]
    }

    fn schema() -> (r: Vec<Kind>) {
        vec![Kind::Str, Kind::OptStr, Kind::Double, Kind::OptInt64, Kind::OptInt64, Kind::Int64]
    }

    fn to_scalars(&self) -> (r: Vec<Scalar>) {
        let r = vec![
            Scalar::Str(self.name.clone()),
            opt_str_scalar(&self.description),
            Scalar::Double(self.price),
            Scalar::OptInt64(self.stock_quantity),
            Scalar::OptInt64(self.category_id),
            Scalar::Int64(self.product_id),
        ];
        assert(values_of(r@) =~= self.spec_values());
        r
    }

    fn from_scalars(v: Vec<Scalar>) -> (r: Self) {
        let ghost vals = values_of(v@);
        proof {
            assert(kind_of(vals[0]) == Kind::Str);
            assert(kind_of(vals[1]) == Kind::OptStr);
            assert(kind_of(vals[2]) == Kind::Double);
            assert(kind_of(vals[3]) == Kind::OptInt64);
            assert(kind_of(vals[4]) == Kind::OptInt64);
            assert(kind_of(vals[5]) == Kind::Int64);
        }
        let mut v = v;
        let product_id = pop_int64(&mut v);
        let category_id = pop_opt_int64(&mut v);
        let stock_quantity = pop_opt_int64(&mut v);
        let price = pop_double(&mut v);
        let description = pop_opt_str(&mut v);
        let name = pop_str(&mut v);
        let r = UpdateProductRequest { name, description, price, stock_quantity, category_id, product_id };
        assert(r.spec_values() =~= vals);
        r
    }

    proof fn lemma_schema(&self) {
        let vals = self.spec_values();
        let schema = Self::spec_schema();
        assert(vals.len() == 6 && schema.len() == 6);
        assert forall|i: int| 0 <= i < vals.len() implies #[trigger] kind_of(vals[i]) == schema[i] by {
            if i == 0 {} else if i == 1 {} else if i == 2 {} else if i == 3 {} else if i == 4 {} else {}
        }
    }
}

impl Default for UpdateProductRequest {
    fn default() -> (r: Self)
        ensures
            r.spec_values() == defaults(Self::spec_schema()),
    {
        let r = UpdateProductRequest { name: String::new(), description: None, price: 0, stock_quantity: None, category_id: None, product_id: 0 };
        assert(r.spec_values() =~= defaults(Self::spec_schema()));
        r
    }
}

#[derive(Clone, Debug)]
pub struct DeleteProductRequest {
    pub product_id: i64,
}

impl ProtoMessage for DeleteProductRequest {
    open spec fn spec_schema() -> Seq<Kind> {
        seq![Kind::Int64]
    }

    open spec fn spec_values(&self) -> Seq<ScalarValue> {
        seq![
            ScalarValue::Int64(self.product_id),
        ]
    }

    fn schema() -> (r: Vec<Kind>) {
        vec![Kind::Int64]
    }

    fn to_scalars(&self) -> (r: Vec<Scalar>) {
        let r = vec![
            Scalar::Int64(self.product_id),
        ];
        assert(values_of(r@) =~= self.spec_values());
        r
    }

    fn from_scalars(v: Vec<Scalar>) -> (r: Self) {
        let ghost vals = values_of(v@);
        proof {
            assert(kind_of(vals[0]) == Kind::Int64);
        }
        let mut v = v;
        let product_id = pop_int64(&mut v);
        let r = DeleteProductRequest { product_id };
        assert(r.spec_values() =~= vals);
        r
    }

    proof fn lemma_schema(&self) {
        let vals = self.spec_values();
        let schema = Self::spec_schema();
        assert(vals.len() == 1 && schema.len() == 1);
        assert forall|i: int| 0 <= i < vals.len() implies #[trigger] kind_of(vals[i]) == schema[i] by {
            assert(i == 0);
        }
    }
}

impl Default for DeleteProductRequest {
    fn default() -> (r: Self)
        ensures
            r.spec_values() == defaults(Self::spec_schema()),
    {
        let r = DeleteProductRequest { product_id: 0 };
        assert(r.spec_values() =~= defaults(Self::spec_schema()));
        r
    }
}

#[derive(Clone, Debug)]
pub struct ProductResponse {
    pub name: String,
    pub description: Option<String>,
    /// IEEE 754 bit pattern.
    pub price: u64,
    pub stock_quantity: Option<i64>,
    pub category_id: Option<i64>,
    pub product_id: i64,
}

impl ProtoMessage for ProductResponse {
    open spec fn spec_schema() -> Seq<Kind> {
        seq![Kind::Str, Kind::OptStr, Kind::Double, Kind::OptInt64, Kind::OptInt64, Kind::Int64]
    }

    open spec fn spec_values(&self) -> Seq<ScalarValue> {
        seq![
            ScalarValue::Str(self.name@),
            ScalarValue::OptStr(opt_chars(self.description)),
            ScalarValue::Double(self.price),
            ScalarValue::OptInt64(self.stock_quantity),
            ScalarValue::OptInt64(self.category_id),
            ScalarValue::Int64(self.product_id),
        ]
    }

    fn schema() -> (r: Vec<Kind>) {
        vec![Kind::Str, Kind::OptStr, Kind::Double, Kind::OptInt64, Kind::OptInt64, Kind::Int64]
    }

    fn to_scalars(&self) -> (r: Vec<Scalar>) {
        let r = vec![
            Scalar::Str(self.name.clone()),
            opt_str_scalar(&self.description),
            Scalar::Double(self.price),
            Scalar::OptInt64(self.stock_quantity),
            Scalar::OptInt64(self.category_id),
            Scalar::Int64(self.product_id),
        ];
        assert(values_of(r@) =~= self.spec_values());
        r
    }

    fn from_scalars(v: Vec<Scalar>) -> (r: Self) {
        let ghost vals = values_of(v@);
        proof {
            assert(kind_of(vals[0]) == Kind::Str);
            assert(kind_of(vals[1]) == Kind::OptStr);
            assert(kind_of(vals[2]) == Kind::Double);
            assert(kind_of(vals[3]) == Kind::OptInt64);
            assert(kind_of(vals[4]) == Kind::OptInt64);
            assert(kind_of(vals[5]) == Kind::Int64);
        }
        let mut v = v;
        let product_id = pop_int64(&mut v);
        let category_id = pop_opt_int64(&mut v);
        let stock_quantity = pop_opt_int64(&mut v);
        let price = pop_double(&mut v);
        let description = pop_opt_str(&mut v);
        let name = pop_str(&mut v);
        let r = ProductResponse { name, description, price, stock_quantity, category_id, product_id };
        assert(r.spec_values() =~= vals);
        r
    }

    proof fn lemma_schema(&self) {
        let vals = self.spec_values();
        let schema = Self::spec_schema();
        assert(vals.len() == 6 && schema.len() == 6);
        assert forall|i: int| 0 <= i < vals.len() implies #[trigger] kind_of(vals[i]) == schema[i] by {
            if i == 0 {} else if i == 1 {} else if i == 2 {} else if i == 3 {} else if i == 4 {} else {}
        }
    }
}

impl Default for ProductResponse {
    fn default() -> (r: Self)
        ensures
            r.spec_values() == defaults(Self::spec_schema()),
    {
        let r = ProductResponse { name: String::new(), description: None, price: 0, stock_quantity: None, category_id: None, product_id: 0 };
        assert(r.spec_values() =~= defaults(Self::spec_schema()));
        r
    }
}

#[derive(Clone, Debug)]
pub struct ProductsResponse {
    pub items: Vec<ProductResponse>,
}

impl ProtoList for ProductsResponse {
    type Item = ProductResponse;

    open spec fn spec_items(&self) -> Seq<ProductResponse> {
        self.items@
    }

    fn items(&self) -> (r: &Vec<ProductResponse>) {
        &self.items
    }

    fn from_items(items: Vec<ProductResponse>) -> (r: Self) {
        ProductsResponse { items }
    }
}

impl Default for ProductsResponse {
    fn default() -> (r: Self)
        ensures
            r.spec_items() == Seq::<ProductResponse>::empty(),
    {
        ProductsResponse { items: Vec::new() }
    }
}

#[derive(Clone, Debug)]
pub struct CreateUserRequest {
    pub username: String,
    pub password: String,
    pub email: String,
    pub full_name: Option<String>,
    pub address: Option<String>,
    pub phone: Option<String>,
}

impl ProtoMessage for CreateUserRequest {
    open spec fn spec_schema() -> Seq<Kind> {
        seq![Kind::Str, Kind::Str, Kind::Str, Kind::OptStr, Kind::OptStr, Kind::OptStr]
    }

    open spec fn spec_values(&self) -> Seq<ScalarValue> {
        seq![
            ScalarValue::Str(self.username@),
            ScalarValue::Str(self.password@),
            ScalarValue::Str(self.email@),
            ScalarValue::OptStr(opt_chars(self.full_name)),
            ScalarValue::OptStr(opt_chars(self.address)),
            ScalarValue::OptStr(opt_chars(self.phone)),
        ]
    }

    fn schema() -> (r: Vec<Kind>) {
        vec![Kind::Str, Kind::Str, Kind::Str, Kind::OptStr, Kind::OptStr, Kind::OptStr]
    }

    fn to_scalars(&self) -> (r: Vec<Scalar>) {
        let r = vec![
            Scalar::Str(self.username.clone()),
            Scalar::Str(self.password.clone()),
            Scalar::Str(self.email.clone()),
            opt_str_scalar(&self.full_name),
            opt_str_scalar(&self.address),
            opt_str_scalar(&self.phone),
        ];
        assert(values_of(r@) =~= self.spec_values());
        r
    }

    fn from_scalars(v: Vec<Scalar>) -> (r: Self) {
        let ghost vals = values_of(v@);
        proof {
            assert(kind_of(vals[0]) == Kind::Str);
            assert(kind_of(vals[1]) == Kind::Str);
            assert(kind_of(vals[2]) == Kind::Str);
            assert(kind_of(vals[3]) == Kind::OptStr);
            assert(kind_of(vals[4]) == Kind::OptStr);
            assert(kind_of(vals[5]) == Kind::OptStr);
        }
        let mut v = v;
        let phone = pop_opt_str(&mut v);
        let address = pop_opt_str(&mut v);
        let full_name = pop_opt_str(&mut v);
        let email = pop_str(&mut v);
        let password = pop_str(&mut v);
        let username = pop_str(&mut v);
        let r = CreateUserRequest { username, password, email, full_name, address, phone };
        assert(r.spec_values() =~= vals);
        r
    }

    proof fn lemma_schema(&self) {
        let vals = self.spec_values();
        let schema = Self::spec_schema();
        assert(vals.len() == 6 && schema.len() == 6);
        assert forall|i: int| 0 <= i < vals.len() implies #[trigger] kind_of(vals[i]) == schema[i] by {
            if i == 0 {} else if i == 1 {} else if i == 2 {} else if i == 3 {} else if i == 4 {} else {}
        }
    }
}

impl Default for CreateUserRequest {
    fn default() -> (r: Self)
        ensures
            r.spec_values() == defaults(Self::spec_schema()),
    {
        let r = CreateUserRequest { username: String::new(), password: String::new(), email: String::new(), full_name: None, address: None, phone: None };
        assert(r.spec_values() =~= defaults(Self::spec_schema()));
        r
    }
}

#[derive(Clone, Debug)]
pub struct GetUserRequest {
    pub user_id: i64,
}

impl ProtoMessage for GetUserRequest {
    open spec fn spec_schema() -> Seq<Kind> {
        seq![Kind::Int64]
    }

    open spec fn spec_values(&self) -> Seq<ScalarValue> {
        seq![
            ScalarValue::Int64(self.user_id),
        ]
    }

    fn schema() -> (r: Vec<Kind>) {
        vec![Kind::Int64]
    }

    fn to_scalars(&self) -> (r: Vec<Scalar>) {
        let r = vec![
            Scalar::Int64(self.user_id),
        ];
        assert(values_of(r@) =~= self.spec_values());
        r
    }

    fn from_scalars(v: Vec<Scalar>) -> (r: Self) {
        let ghost vals = values_of(v@);
        proof {
            assert(kind_of(vals[0]) == Kind::Int64);
        }
        let mut v = v;
        let user_id = pop_int64(&mut v);
        let r = GetUserRequest { user_id };
        assert(r.spec_values() =~= vals);
        r
    }

    proof fn lemma_schema(&self) {
        let vals = self.spec_values();
        let schema = Self::spec_schema();
        assert(vals.len() == 1 && schema.len() == 1);
        assert forall|i: int| 0 <= i < vals.len() implies #[trigger] kind_of(vals[i]) == schema[i] by {
            assert(i == 0);
        }
    }
}

impl Default for GetUserRequest {
    fn default() -> (r: Self)
        ensures
            r.spec_values() == defaults(Self::spec_schema()),
    {
        let r = GetUserRequest { user_id: 0 };
        assert(r.spec_values() =~= defaults(Self::spec_schema()));
        r
    }
}

#[derive(Clone, Debug)]
pub struct UpdateUserRequest {
    pub user_id: i64,
    pub username: Option<String>,
    pub password: Option<String>,
    pub email: Option<String>,
    pub full_name: Option<String>,
    pub address: Option<String>,
    pub phone: Option<String>,
}

impl ProtoMessage for UpdateUserRequest {
    open spec fn spec_schema() -> Seq<Kind> {
        seq![Kind::Int64, Kind::OptStr, Kind::OptStr, Kind::OptStr, Kind::OptStr, Kind::OptStr, Kind::OptStr]
    }

    open spec fn spec_values(&self) -> Seq<ScalarValue> {
        seq![
            ScalarValue::Int64(self.user_id),
            ScalarValue::OptStr(opt_chars(self.username)),
            ScalarValue::OptStr(opt_chars(self.password)),
            ScalarValue::OptStr(opt_chars(self.email)),
            ScalarValue::OptStr(opt_chars(self.full_name)),
            ScalarValue::OptStr(opt_chars(self.address)),
            ScalarValue::OptStr(opt_chars(self.phone)),
        ]
    }

    fn schema() -> (r: Vec<Kind>) {
        vec![Kind::Int64, Kind::OptStr, Kind::OptStr, Kind::OptStr, Kind::OptStr, Kind::OptStr, Kind::OptStr]
    }

    fn to_scalars(&self) -> (r: Vec<Scalar>) {
        let r = vec![
            Scalar::Int64(self.user_id),
            opt_str_scalar(&self.username),
            opt_str_scalar(&self.password),
            opt_str_scalar(&self.email),
            opt_str_scalar(&self.full_name),
            opt_str_scalar(&self.address),
            opt_str_scalar(&self.phone),
        ];
        assert(values_of(r@) =~= self.spec_values());
        r
    }

    fn from_scalars(v: Vec<Scalar>) -> (r: Self) {
        let ghost vals = values_of(v@);
        proof {
            assert(kind_of(vals[0]) == Kind::Int64);
            assert(kind_of(vals[1]) == Kind::OptStr);
            assert(kind_of(vals[2]) == Kind::OptStr);
            assert(kind_of(vals[3]) == Kind::OptStr);
            assert(kind_of(vals[4]) == Kind::OptStr);
            assert(kind_of(vals[5]) == Kind::OptStr);
            assert(kind_of(vals[6]) == Kind::OptStr);
        }
        let mut v = v;
        let phone = pop_opt_str(&mut v);
        let address = pop_opt_str(&mut v);
        let full_name = pop_opt_str(&mut v);
        let email = pop_opt_str(&mut v);
        let password = pop_opt_str(&mut v);
        let username = pop_opt_str(&mut v);
        let user_id = pop_int64(&mut v);
        let r = UpdateUserRequest { user_id, username, password, email, full_name, address, phone };
        assert(r.spec_values() =~= vals);
        r
    }

    proof fn lemma_schema(&self) {
        let vals = self.spec_values();
        let schema = Self::spec_schema();
        assert(vals.len() == 7 && schema.len() == 7);
        assert forall|i: int| 0 <= i < vals.len() implies #[trigger] kind_of(vals[i]) == schema[i] by {
            if i == 0 {} else if i == 1 {} else if i == 2 {} else if i == 3 {} else if i == 4 {} else if i == 5 {} else {}
        }
    }
}

impl Default for UpdateUserRequest {
    fn default() -> (r: Self)
        ensures
            r.spec_values() == defaults(Self::spec_schema()),
    {
        let r = UpdateUserRequest { user_id: 0, username: None, password: None, email: None, full_name: None, address: None, phone: None };
        assert(r.spec_values() =~= defaults(Self::spec_schema()));
        r
    }
}

#[derive(Clone, Debug)]
pub struct DeleteUserRequest {
    pub user_id: i64,
}

impl ProtoMessage for DeleteUserRequest {
    open spec fn spec_schema() -> Seq<Kind> {
        seq![Kind::Int64]
    }

    open spec fn spec_values(&self) -> Seq<ScalarValue> {
        seq![
            ScalarValue::Int64(self.user_id),
        ]
    }

    fn schema() -> (r: Vec<Kind>) {
        vec![Kind::Int64]
    }

    fn to_scalars(&self) -> (r: Vec<Scalar>) {
        let r = vec![
            Scalar::Int64(self.user_id),
        ];
        assert(values_of(r@) =~= self.spec_values());
        r
    }

    fn from_scalars(v: Vec<Scalar>) -> (r: Self) {
        let ghost vals = values_of(v@);
        proof {
            assert(kind_of(vals[0]) == Kind::Int64);
        }
        let mut v = v;
        let user_id = pop_int64(&mut v);
        let r = DeleteUserRequest { user_id };
        assert(r.spec_values() =~= vals);
        r
    }

    proof fn lemma_schema(&self) {
        let vals = self.spec_values();
        let schema = Self::spec_schema();
        assert(vals.len() == 1 && schema.len() == 1);
        assert forall|i: int| 0 <= i < vals.len() implies #[trigger] kind_of(vals[i]) == schema[i] by {
            assert(i == 0);
        }
    }
}

impl Default for DeleteUserRequest {
    fn default() -> (r: Self)
        ensures
            r.spec_values() == defaults(Self::spec_schema()),
    {
        let r = DeleteUserRequest { user_id: 0 };
        assert(r.spec_values() =~= defaults(Self::spec_schema()));
        r
    }
}

#[derive(Clone, Debug)]
pub struct UserResponse {
    pub user_id: i64,
    pub username: String,
    pub email: String,
    pub full_name: Option<String>,
    pub address: Option<String>,
    pub phone: Option<String>,
    pub create_date: String,
}

impl ProtoMessage for UserResponse {
    open spec fn spec_schema() -> Seq<Kind> {
        seq![Kind::Int64, Kind::Str, Kind::Str, Kind::OptStr, Kind::OptStr, Kind::OptStr, Kind::Str]
    }

    open spec fn spec_values(&self) -> Seq<ScalarValue> {
        seq![
            ScalarValue::Int64(self.user_id),
            ScalarValue::Str(self.username@),
            ScalarValue::Str(self.email@),
            ScalarValue::OptStr(opt_chars(self.full_name)),
            ScalarValue::OptStr(opt_chars(self.address)),
            ScalarValue::OptStr(opt_chars(self.phone)),
            ScalarValue::Str(self.create_date@),
        ]
    }

    fn schema() -> (r: Vec<Kind>) {
        vec![Kind::Int64, Kind::Str, Kind::Str, Kind::OptStr, Kind::OptStr, Kind::OptStr, Kind::Str]
    }

    fn to_scalars(&self) -> (r: Vec<Scalar>) {
        let r = vec![
            Scalar::Int64(self.user_id),
            Scalar::Str(self.username.clone()),
            Scalar::Str(self.email.clone()),
            opt_str_scalar(&self.full_name),
            opt_str_scalar(&self.address),
            opt_str_scalar(&self.phone),
            Scalar::Str(self.create_date.clone()),
        ];
        assert(values_of(r@) =~= self.spec_values());
        r
    }

    fn from_scalars(v: Vec<Scalar>) -> (r: Self) {
        let ghost vals = values_of(v@);
        proof {
            assert(kind_of(vals[0]) == Kind::Int64);
            assert(kind_of(vals[1]) == Kind::Str);
            assert(kind_of(vals[2]) == Kind::Str);
            assert(kind_of(vals[3]) == Kind::OptStr);
            assert(kind_of(vals[4]) == Kind::OptStr);
            assert(kind_of(vals[5]) == Kind::OptStr);
            assert(kind_of(vals[6]) == Kind::Str);
        }
        let mut v = v;
        let create_date = pop_str(&mut v);
        let phone = pop_opt_str(&mut v);
        let address = pop_opt_str(&mut v);
        let full_name = pop_opt_str(&mut v);
        let email = pop_str(&mut v);
        let username = pop_str(&mut v);
        let user_id = pop_int64(&mut v);
        let r = UserResponse { user_id, username, email, full_name, address, phone, create_date };
        assert(r.spec_values() =~= vals);
        r
    }

    proof fn lemma_schema(&self) {
        let vals = self.spec_values();
        let schema = Self::spec_schema();
        assert(vals.len() == 7 && schema.len() == 7);
        assert forall|i: int| 0 <= i < vals.len() implies #[trigger] kind_of(vals[i]) == schema[i] by {
            if i == 0 {} else if i == 1 {} else if i == 2 {} else if i == 3 {} else if i == 4 {} else if i == 5 {} else {}
        }
    }
}

impl Default for UserResponse {
    fn default() -> (r: Self)
        ensures
            r.spec_values() == defaults(Self::spec_schema()),
    {
        let r = UserResponse { user_id: 0, username: String::new(), email: String::new(), full_name: None, address: None, phone: None, create_date: String::new() };
        assert(r.spec_values() =~= defaults(Self::spec_schema()));
        r
    }
}

#[derive(Clone, Debug)]
pub struct UsersResponse {
    pub items: Vec<UserResponse>,
}

impl ProtoList for UsersResponse {
    type Item = UserResponse;

    open spec fn spec_items(&self) -> Seq<UserResponse> {
        self.items@
    }

    fn items(&self) -> (r: &Vec<UserResponse>) {
        &self.items
    }

    fn from_items(items: Vec<UserResponse>) -> (r: Self) {
        UsersResponse { items }
    }
}

impl Default for UsersResponse {
    fn default() -> (r: Self)
        ensures
            r.spec_items() == Seq::<UserResponse>::empty(),
    {
        UsersResponse { items: Vec::new() }
    }
}

#[derive(Clone, Debug)]
pub struct CreateCategoryRequest {
    pub name: String,
}

impl ProtoMessage for CreateCategoryRequest {
    open spec fn spec_schema() -> Seq<Kind> {
        seq![Kind::Str]
    }

    open spec fn spec_values(&self) -> Seq<ScalarValue> {
        seq![
            ScalarValue::Str(self.name@),
        ]
    }

    fn schema() -> (r: Vec<Kind>) {
        vec![Kind::Str]
    }

    fn to_scalars(&self) -> (r: Vec<Scalar>) {
        let r = vec![
            Scalar::Str(self.name.clone()),
        ];
        assert(values_of(r@) =~= self.spec_values());
        r
    }

    fn from_scalars(v: Vec<Scalar>) -> (r: Self) {
        let ghost vals = values_of(v@);
        proof {
            assert(kind_of(vals[0]) == Kind::Str);
        }
        let mut v = v;
        let name = pop_str(&mut v);
        let r = CreateCategoryRequest { name };
        assert(r.spec_values() =~= vals);
        r
    }

    proof fn lemma_schema(&self) {
        let vals = self.spec_values();
        let schema = Self::spec_schema();
        assert(vals.len() == 1 && schema.len() == 1);
        assert forall|i: int| 0 <= i < vals.len() implies #[trigger] kind_of(vals[i]) == schema[i] by {
            assert(i == 0);
        }
    }
}

impl Default for CreateCategoryRequest {
    fn default() -> (r: Self)
        ensures
            r.spec_values() == defaults(Self::spec_schema()),
    {
        let r = CreateCategoryRequest { name: String::new() };
        assert(r.spec_values() =~= defaults(Self::spec_schema()));
        r
    }
}

#[derive(Clone, Debug)]
pub struct GetCategoryRequest {
    pub category_id: i64,
}

impl ProtoMessage for GetCategoryRequest {
    open spec fn spec_schema() -> Seq<Kind> {
        seq![Kind::Int64]
    }

    open spec fn spec_values(&self) -> Seq<ScalarValue> {
        seq![
            ScalarValue::Int64(self.category_id),
        ]
    }

    fn schema() -> (r: Vec<Kind>) {
        vec![Kind::Int64]
    }

    fn to_scalars(&self) -> (r: Vec<Scalar>) {
        let r = vec![
            Scalar::Int64(self.category_id),
        ];
        assert(values_of(r@) =~= self.spec_values());
        r
    }

    fn from_scalars(v: Vec<Scalar>) -> (r: Self) {
        let ghost vals = values_of(v@);
        proof {
            assert(kind_of(vals[0]) == Kind::Int64);
        }
        let mut v = v;
        let category_id = pop_int64(&mut v);
        let r = GetCategoryRequest { category_id };
        assert(r.spec_values() =~= vals);
        r
    }

    proof fn lemma_schema(&self) {
        let vals = self.spec_values();
        let schema = Self::spec_schema();
        assert(vals.len() == 1 && schema.len() == 1);
        assert forall|i: int| 0 <= i < vals.len() implies #[trigger] kind_of(vals[i]) == schema[i] by {
            assert(i == 0);
        }
    }
}

impl Default for GetCategoryRequest {
    fn default() -> (r: Self)
        ensures
            r.spec_values() == defaults(Self::spec_schema()),
    {
        let r = GetCategoryRequest { category_id: 0 };
        assert(r.spec_values() =~= defaults(Self::spec_schema()));
        r
    }
}

#[derive(Clone, Debug)]
pub struct UpdateCategoryRequest {
    pub category_id: i64,
    pub name: String,
}

impl ProtoMessage for UpdateCategoryRequest {
    open spec fn spec_schema() -> Seq<Kind> {
        seq![Kind::Int64, Kind::Str]
    }

    open spec fn spec_values(&self) -> Seq<ScalarValue> {
        seq![
            ScalarValue::Int64(self.category_id),
            ScalarValue::Str(self.name@),
        ]
    }

    fn schema() -> (r: Vec<Kind>) {
        vec![Kind::Int64, Kind::Str]
    }

    fn to_scalars(&self) -> (r: Vec<Scalar>) {
        let r = vec![
            Scalar::Int64(self.category_id),
            Scalar::Str(self.name.clone()),
        ];
        assert(values_of(r@) =~= self.spec_values());
        r
    }

    fn from_scalars(v: Vec<Scalar>) -> (r: Self) {
        let ghost vals = values_of(v@);
        proof {
            assert(kind_of(vals[0]) == Kind::Int64);
            assert(kind_of(vals[1]) == Kind::Str);
        }
        let mut v = v;
        let name = pop_str(&mut v);
        let category_id = pop_int64(&mut v);
        let r = UpdateCategoryRequest { category_id, name };
        assert(r.spec_values() =~= vals);
        r
    }

    proof fn lemma_schema(&self) {
        let vals = self.spec_values();
        let schema = Self::spec_schema();
        assert(vals.len() == 2 && schema.len() == 2);
        assert forall|i: int| 0 <= i < vals.len() implies #[trigger] kind_of(vals[i]) == schema[i] by {
            if i == 0 {} else {}
        }
    }
}

impl Default for UpdateCategoryRequest {
    fn default() -> (r: Self)
        ensures
            r.spec_values() == defaults(Self::spec_schema()),
    {
        let r = UpdateCategoryRequest { category_id: 0, name: String::new() };
        assert(r.spec_values() =~= defaults(Self::spec_schema()));
        r
    }
}

#[derive(Clone, Debug)]
pub struct DeleteCategoryRequest {
    pub category_id: i64,
}

impl ProtoMessage for DeleteCategoryRequest {
    open spec fn spec_schema() -> Seq<Kind> {
        seq![Kind::Int64]
    }

    open spec fn spec_values(&self) -> Seq<ScalarValue> {
        seq![
            ScalarValue::Int64(self.category_id),
        ]
    }

    fn schema() -> (r: Vec<Kind>) {
        vec![Kind::Int64]
    }

    fn to_scalars(&self) -> (r: Vec<Scalar>) {
        let r = vec![
            Scalar::Int64(self.category_id),
        ];
        assert(values_of(r@) =~= self.spec_values());
        r
    }

    fn from_scalars(v: Vec<Scalar>) -> (r: Self) {
        let ghost vals = values_of(v@);
        proof {
            assert(kind_of(vals[0]) == Kind::Int64);
        }
        let mut v = v;
        let category_id = pop_int64(&mut v);
        let r = DeleteCategoryRequest { category_id };
        assert(r.spec_values() =~= vals);
        r
    }

    proof fn lemma_schema(&self) {
        let vals = self.spec_values();
        let schema = Self::spec_schema();
        assert(vals.len() == 1 && schema.len() == 1);
        assert forall|i: int| 0 <= i < vals.len() implies #[trigger] kind_of(vals[i]) == schema[i] by {
            assert(i == 0);
        }
    }
}

impl Default for DeleteCategoryRequest {
    fn default() -> (r: Self)
        ensures
            r.spec_values() == defaults(Self::spec_schema()),
    {
        let r = DeleteCategoryRequest { category_id: 0 };
        assert(r.spec_values() =~= defaults(Self::spec_schema()));
        r
    }
}

#[derive(Clone, Debug)]
pub struct CategoryResponse {
    pub category_id: i64,
    pub name: String,
}

impl ProtoMessage for CategoryResponse {
    open spec fn spec_schema() -> Seq<Kind> {
        seq![Kind::Int64, Kind::Str]
    }

    open spec fn spec_values(&self) -> Seq<ScalarValue> {
        seq![
            ScalarValue::Int64(self.category_id),
            ScalarValue::Str(self.name@),
        ]
    }

    fn schema() -> (r: Vec<Kind>) {
        vec![Kind::Int64, Kind::Str]
    }

    fn to_scalars(&self) -> (r: Vec<Scalar>) {
        let r = vec![
            Scalar::Int64(self.category_id),
            Scalar::Str(self.name.clone()),
        ];
        assert(values_of(r@) =~= self.spec_values());
        r
    }

    fn from_scalars(v: Vec<Scalar>) -> (r: Self) {
        let ghost vals = values_of(v@);
        proof {
            assert(kind_of(vals[0]) == Kind::Int64);
            assert(kind_of(vals[1]) == Kind::Str);
        }
        let mut v = v;
        let name = pop_str(&mut v);
        let category_id = pop_int64(&mut v);
        let r = CategoryResponse { category_id, name };
        assert(r.spec_values() =~= vals);
        r
    }

    proof fn lemma_schema(&self) {
        let vals = self.spec_values();
        let schema = Self::spec_schema();
        assert(vals.len() == 2 && schema.len() == 2);
        assert forall|i: int| 0 <= i < vals.len() implies #[trigger] kind_of(vals[i]) == schema[i] by {
            if i == 0 {} else {}
        }
    }
}

impl Default for CategoryResponse {
    fn default() -> (r: Self)
        ensures
            r.spec_values() == defaults(Self::spec_schema()),
    {
        let r = CategoryResponse { category_id: 0, name: String::new() };
        assert(r.spec_values() =~= defaults(Self::spec_schema()));
        r
    }
}

#[derive(Clone, Debug)]
pub struct CategoriesResponse {
    pub items: Vec<CategoryResponse>,
}

impl ProtoList for CategoriesResponse {
    type Item = CategoryResponse;

    open spec fn spec_items(&self) -> Seq<CategoryResponse> {
        self.items@
    }

    fn items(&self) -> (r: &Vec<CategoryResponse>) {
        &self.items
    }

    fn from_items(items: Vec<CategoryResponse>) -> (r: Self) {
        CategoriesResponse { items }
    }
}

impl Default for CategoriesResponse {
    fn default() -> (r: Self)
        ensures
            r.spec_items() == Seq::<CategoryResponse>::empty(),
    {
        CategoriesResponse { items: Vec::new() }
    }
}

#[derive(Clone, Debug)]
pub struct CreateOrderRequest {
    pub user_id: i64,
    pub shipping_address: String,
    /// IEEE 754 bit pattern.
    pub total_amount: u64,
    pub status_id: i64,
}

impl ProtoMessage for CreateOrderRequest {
    open spec fn spec_schema() -> Seq<Kind> {
        seq![Kind::Int64, Kind::Str, Kind::Double, Kind::Int64]
    }

    open spec fn spec_values(&self) -> Seq<ScalarValue> {
        seq![
            ScalarValue::Int64(self.user_id),
            ScalarValue::Str(self.shipping_address@),
            ScalarValue::Double(self.total_amount),
            ScalarValue::Int64(self.status_id),
        ]
    }

    fn schema() -> (r: Vec<Kind>) {
        vec![Kind::Int64, Kind::Str, Kind::Double, Kind::Int64]
    }

    fn to_scalars(&self) -> (r: Vec<Scalar>) {
        let r = vec![
            Scalar::Int64(self.user_id),
            Scalar::Str(self.shipping_address.clone()),
            Scalar::Double(self.total_amount),
            Scalar::Int64(self.status_id),
        ];
        assert(values_of(r@) =~= self.spec_values());
        r
    }

    fn from_scalars(v: Vec<Scalar>) -> (r: Self) {
        let ghost vals = values_of(v@);
        proof {
            assert(kind_of(vals[0]) == Kind::Int64);
            assert(kind_of(vals[1]) == Kind::Str);
            assert(kind_of(vals[2]) == Kind::Double);
            assert(kind_of(vals[3]) == Kind::Int64);
        }
        let mut v = v;
        let status_id = pop_int64(&mut v);
        let total_amount = pop_double(&mut v);
        let shipping_address = pop_str(&mut v);
        let user_id = pop_int64(&mut v);
        let r = CreateOrderRequest { user_id, shipping_address, total_amount, status_id };
        assert(r.spec_values() =~= vals);
        r
    }

    proof fn lemma_schema(&self) {
        let vals = self.spec_values();
        let schema = Self::spec_schema();
        assert(vals.len() == 4 && schema.len() == 4);
        assert forall|i: int| 0 <= i < vals.len() implies #[trigger] kind_of(vals[i]) == schema[i] by {
            if i == 0 {} else if i == 1 {} else if i == 2 {} else {}
        }
    }
}

impl Default for CreateOrderRequest {
    fn default() -> (r: Self)
        ensures
            r.spec_values() == defaults(Self::spec_schema()),
    {
        let r = CreateOrderRequest { user_id: 0, shipping_address: String::new(), total_amount: 0, status_id: 0 };
        assert(r.spec_values() =~= defaults(Self::spec_schema()));
        r
    }
}

#[derive(Clone, Debug)]
pub struct GetOrderRequest {
    pub order_id: i64,
}

impl ProtoMessage for GetOrderRequest {
    open spec fn spec_schema() -> Seq<Kind> {
        seq![Kind::Int64]
    }

    open spec fn spec_values(&self) -> Seq<ScalarValue> {
        seq![
            ScalarValue::Int64(self.order_id),
        ]
    }

    fn schema() -> (r: Vec<Kind>) {
        vec![Kind::Int64]
    }

    fn to_scalars(&self) -> (r: Vec<Scalar>) {
        let r = vec![
            Scalar::Int64(self.order_id),
        ];
        assert(values_of(r@) =~= self.spec_values());
        r
    }

    fn from_scalars(v: Vec<Scalar>) -> (r: Self) {
        let ghost vals = values_of(v@);
        proof {
            assert(kind_of(vals[0]) == Kind::Int64);
        }
        let mut v = v;
        let order_id = pop_int64(&mut v);
        let r = GetOrderRequest { order_id };
        assert(r.spec_values() =~= vals);
        r
    }

    proof fn lemma_schema(&self) {
        let vals = self.spec_values();
        let schema = Self::spec_schema();
        assert(vals.len() == 1 && schema.len() == 1);
        assert forall|i: int| 0 <= i < vals.len() implies #[trigger] kind_of(vals[i]) == schema[i] by {
            assert(i == 0);
        }
    }
}

impl Default for GetOrderRequest {
    fn default() -> (r: Self)
        ensures
            r.spec_values() == defaults(Self::spec_schema()),
    {
        let r = GetOrderRequest { order_id: 0 };
        assert(r.spec_values() =~= defaults(Self::spec_schema()));
        r
    }
}

#[derive(Clone, Debug)]
pub struct UpdateOrderRequest {
    pub order_id: i64,
    pub user_id: Option<i64>,
    pub shipping_address: Option<String>,
    /// IEEE 754 bit pattern.
    pub total_amount: Option<u64>,
    pub status_id: Option<i64>,
}

impl ProtoMessage for UpdateOrderRequest {
    open spec fn spec_schema() -> Seq<Kind> {
        seq![Kind::Int64, Kind::OptInt64, Kind::OptStr, Kind::OptDouble, Kind::OptInt64]
    }

    open spec fn spec_values(&self) -> Seq<ScalarValue> {
        seq![
            ScalarValue::Int64(self.order_id),
            ScalarValue::OptInt64(self.user_id),
            ScalarValue::OptStr(opt_chars(self.shipping_address)),
            ScalarValue::OptDouble(self.total_amount),
            ScalarValue::OptInt64(self.status_id),
        ]
    }

    fn schema() -> (r: Vec<Kind>) {
        vec![Kind::Int64, Kind::OptInt64, Kind::OptStr, Kind::OptDouble, Kind::OptInt64]
    }

    fn to_scalars(&self) -> (r: Vec<Scalar>) {
        let r = vec![
            Scalar::Int64(self.order_id),
            Scalar::OptInt64(self.user_id),
            opt_str_scalar(&self.shipping_address),
            Scalar::OptDouble(self.total_amount),
            Scalar::OptInt64(self.status_id),
        ];
        assert(values_of(r@) =~= self.spec_values());
        r
    }

    fn from_scalars(v: Vec<Scalar>) -> (r: Self) {
        let ghost vals = values_of(v@);
        proof {
            assert(kind_of(vals[0]) == Kind::Int64);
            assert(kind_of(vals[1]) == Kind::OptInt64);
            assert(kind_of(vals[2]) == Kind::OptStr);
            assert(kind_of(vals[3]) == Kind::OptDouble);
            assert(kind_of(vals[4]) == Kind::OptInt64);
        }
        let mut v = v;
        let status_id = pop_opt_int64(&mut v);
        let total_amount = pop_opt_double(&mut v);
        let shipping_address = pop_opt_str(&mut v);
        let user_id = pop_opt_int64(&mut v);
        let order_id = pop_int64(&mut v);
        let r = UpdateOrderRequest { order_id, user_id, shipping_address, total_amount, status_id };
        assert(r.spec_values() =~= vals);
        r
    }

    proof fn lemma_schema(&self) {
        let vals = self.spec_values();
        let schema = Self::spec_schema();
        assert(vals.len() == 5 && schema.len() == 5);
        assert forall|i: int| 0 <= i < vals.len() implies #[trigger] kind_of(vals[i]) == schema[i] by {
            if i == 0 {} else if i == 1 {} else if i == 2 {} else if i == 3 {} else {}
        }
    }
}

impl Default for UpdateOrderRequest {
    fn default() -> (r: Self)
        ensures
            r.spec_values() == defaults(Self::spec_schema()),
    {
        let r = UpdateOrderRequest { order_id: 0, user_id: None, shipping_address: None, total_amount: None, status_id: None };
        assert(r.spec_values() =~= defaults(Self::spec_schema()));
        r
    }
}

#[derive(Clone, Debug)]
pub struct DeleteOrderRequest {
    pub order_id: i64,
}

impl ProtoMessage for DeleteOrderRequest {
    open spec fn spec_schema() -> Seq<Kind> {
        seq![Kind::Int64]
    }

    open spec fn spec_values(&self) -> Seq<ScalarValue> {
        seq![
            ScalarValue::Int64(self.order_id),
        ]
    }

    fn schema() -> (r: Vec<Kind>) {
        vec![Kind::Int64]
    }

    fn to_scalars(&self) -> (r: Vec<Scalar>) {
        let r = vec![
            Scalar::Int64(self.order_id),
        ];
        assert(values_of(r@) =~= self.spec_values());
        r
    }

    fn from_scalars(v: Vec<Scalar>) -> (r: Self) {
        let ghost vals = values_of(v@);
        proof {
            assert(kind_of(vals[0]) == Kind::Int64);
        }
        let mut v = v;
        let order_id = pop_int64(&mut v);
        let r = DeleteOrderRequest { order_id };
        assert(r.spec_values() =~= vals);
        r
    }

    proof fn lemma_schema(&self) {
        let vals = self.spec_values();
        let schema = Self::spec_schema();
        assert(vals.len() == 1 && schema.len() == 1);
        assert forall|i: int| 0 <= i < vals.len() implies #[trigger] kind_of(vals[i]) == schema[i] by {
            assert(i == 0);
        }
    }
}

impl Default for DeleteOrderRequest {
    fn default() -> (r: Self)
        ensures
            r.spec_values() == defaults(Self::spec_schema()),
    {
        let r = DeleteOrderRequest { order_id: 0 };
        assert(r.spec_values() =~= defaults(Self::spec_schema()));
        r
    }
}

#[derive(Clone, Debug)]
pub struct OrderResponse {
    pub order_id: i64,
    pub user_id: i64,
    pub order_date: String,
    pub shipping_address: String,
    /// IEEE 754 bit pattern.
    pub total_amount: u64,
    pub status_id: i64,
}

impl ProtoMessage for OrderResponse {
    open spec fn spec_schema() -> Seq<Kind> {
        seq![Kind::Int64, Kind::Int64, Kind::Str, Kind::Str, Kind::Double, Kind::Int64]
    }

    open spec fn spec_values(&self) -> Seq<ScalarValue> {
        seq![
            ScalarValue::Int64(self.order_id),
            ScalarValue::Int64(self.user_id),
            ScalarValue::Str(self.order_date@),
            ScalarValue::Str(self.shipping_address@),
            ScalarValue::Double(self.total_amount),
            ScalarValue::Int64(self.status_id),
        ]
    }

    fn schema() -> (r: Vec<Kind>) {
        vec![Kind::Int64, Kind::Int64, Kind::Str, Kind::Str, Kind::Double, Kind::Int64]
    }

    fn to_scalars(&self) -> (r: Vec<Scalar>) {
        let r = vec![
            Scalar::Int64(self.order_id),
            Scalar::Int64(self.user_id),
            Scalar::Str(self.order_date.clone()),
            Scalar::Str(self.shipping_address.clone()),
            Scalar::Double(self.total_amount),
            Scalar::Int64(self.status_id),
        ];
        assert(values_of(r@) =~= self.spec_values());
        r
    }

    fn from_scalars(v: Vec<Scalar>) -> (r: Self) {
        let ghost vals = values_of(v@);
        proof {
            assert(kind_of(vals[0]) == Kind::Int64);
            assert(kind_of(vals[1]) == Kind::Int64);
            assert(kind_of(vals[2]) == Kind::Str);
            assert(kind_of(vals[3]) == Kind::Str);
            assert(kind_of(vals[4]) == Kind::Double);
            assert(kind_of(vals[5]) == Kind::Int64);
        }
        let mut v = v;
        let status_id = pop_int64(&mut v);
        let total_amount = pop_double(&mut v);
        let shipping_address = pop_str(&mut v);
        let order_date = pop_str(&mut v);
        let user_id = pop_int64(&mut v);
        let order_id = pop_int64(&mut v);
        let r = OrderResponse { order_id, user_id, order_date, shipping_address, total_amount, status_id };
        assert(r.spec_values() =~= vals);
        r
    }

    proof fn lemma_schema(&self) {
        let vals = self.spec_values();
        let schema = Self::spec_schema();
        assert(vals.len() == 6 && schema.len() == 6);
        assert forall|i: int| 0 <= i < vals.len() implies #[trigger] kind_of(vals[i]) == schema[i] by {
            if i == 0 {} else if i == 1 {} else if i == 2 {} else if i == 3 {} else if i == 4 {} else {}
        }
    }
}

impl Default for OrderResponse {
    fn default() -> (r: Self)
        ensures
            r.spec_values() == defaults(Self::spec_schema()),
    {
        let r = OrderResponse { order_id: 0, user_id: 0, order_date: String::new(), shipping_address: String::new(), total_amount: 0, status_id: 0 };
        assert(r.spec_values() =~= defaults(Self::spec_schema()));
        r
    }
}

#[derive(Clone, Debug)]
pub struct OrdersResponse {
    pub items: Vec<OrderResponse>,
}

impl ProtoList for OrdersResponse {
    type Item = OrderResponse;

    open spec fn spec_items(&self) -> Seq<OrderResponse> {
        self.items@
    }

    fn items(&self) -> (r: &Vec<OrderResponse>) {
        &self.items
    }

    fn from_items(items: Vec<OrderResponse>) -> (r: Self) {
        OrdersResponse { items }
    }
}

impl Default for OrdersResponse {
    fn default() -> (r: Self)
        ensures
            r.spec_items() == Seq::<OrderResponse>::empty(),
    {
        OrdersResponse { items: Vec::new() }
    }
}

#[derive(Clone, Debug)]
pub struct CreateOrderDetailRequest {
    pub order_id: i64,
    pub product_id: i64,
    pub quantity: i64,
    /// IEEE 754 bit pattern.
    pub price: u64,
}

impl ProtoMessage for CreateOrderDetailRequest {
    open spec fn spec_schema() -> Seq<Kind> {
        seq![Kind::Int64, Kind::Int64, Kind::Int64, Kind::Double]
    }

    open spec fn spec_values(&self) -> Seq<ScalarValue> {
        seq![
            ScalarValue::Int64(self.order_id),
            ScalarValue::Int64(self.product_id),
            ScalarValue::Int64(self.quantity),
            ScalarValue::Double(self.price),
        ]
    }

    fn schema() -> (r: Vec<Kind>) {
        vec![Kind::Int64, Kind::Int64, Kind::Int64, Kind::Double]
    }

    fn to_scalars(&self) -> (r: Vec<Scalar>) {
        let r = vec![
            Scalar::Int64(self.order_id),
            Scalar::Int64(self.product_id),
            Scalar::Int64(self.quantity),
            Scalar::Double(self.price),
        ];
        assert(values_of(r@) =~= self.spec_values());
        r
    }

    fn from_scalars(v: Vec<Scalar>) -> (r: Self) {
        let ghost vals = values_of(v@);
        proof {
            assert(kind_of(vals[0]) == Kind::Int64);
            assert(kind_of(vals[1]) == Kind::Int64);
            assert(kind_of(vals[2]) == Kind::Int64);
            assert(kind_of(vals[3]) == Kind::Double);
        }
        let mut v = v;
        let price = pop_double(&mut v);
        let quantity = pop_int64(&mut v);
        let product_id = pop_int64(&mut v);
        let order_id = pop_int64(&mut v);
        let r = CreateOrderDetailRequest { order_id, product_id, quantity, price };
        assert(r.spec_values() =~= vals);
        r
    }

    proof fn lemma_schema(&self) {
        let vals = self.spec_values();
        let schema = Self::spec_schema();
        assert(vals.len() == 4 && schema.len() == 4);
        assert forall|i: int| 0 <= i < vals.len() implies #[trigger] kind_of(vals[i]) == schema[i] by {
            if i == 0 {} else if i == 1 {} else if i == 2 {} else {}
        }
    }
}

impl Default for CreateOrderDetailRequest {
    fn default() -> (r: Self)
        ensures
            r.spec_values() == defaults(Self::spec_schema()),
    {
        let r = CreateOrderDetailRequest { order_id: 0, product_id: 0, quantity: 0, price: 0 };
        assert(r.spec_values() =~= defaults(Self::spec_schema()));
        r
    }
}

#[derive(Clone, Debug)]
pub struct GetOrderDetailRequest {
    pub order_detail_id: i64,
}

impl ProtoMessage for GetOrderDetailRequest {
    open spec fn spec_schema() -> Seq<Kind> {
        seq![Kind::Int64]
    }

    open spec fn spec_values(&self) -> Seq<ScalarValue> {
        seq![
            ScalarValue::Int64(self.order_detail_id),
        ]
    }

    fn schema() -> (r: Vec<Kind>) {
        vec![Kind::Int64]
    }

    fn to_scalars(&self) -> (r: Vec<Scalar>) {
        let r = vec![
            Scalar::Int64(self.order_detail_id),
        ];
        assert(values_of(r@) =~= self.spec_values());
        r
    }

    fn from_scalars(v: Vec<Scalar>) -> (r: Self) {
        let ghost vals = values_of(v@);
        proof {
            assert(kind_of(vals[0]) == Kind::Int64);
        }
        let mut v = v;
        let order_detail_id = pop_int64(&mut v);
        let r = GetOrderDetailRequest { order_detail_id };
        assert(r.spec_values() =~= vals);
        r
    }

    proof fn lemma_schema(&self) {
        let vals = self.spec_values();
        let schema = Self::spec_schema();
        assert(vals.len() == 1 && schema.len() == 1);
        assert forall|i: int| 0 <= i < vals.len() implies #[trigger] kind_of(vals[i]) == schema[i] by {
            assert(i == 0);
        }
    }
}

impl Default for GetOrderDetailRequest {
    fn default() -> (r: Self)
        ensures
            r.spec_values() == defaults(Self::spec_schema()),
    {
        let r = GetOrderDetailRequest { order_detail_id: 0 };
        assert(r.spec_values() =~= defaults(Self::spec_schema()));
        r
    }
}

#[derive(Clone, Debug)]
pub struct UpdateOrderDetailRequest {
    pub order_detail_id: i64,
    pub order_id: Option<i64>,
    pub product_id: Option<i64>,
    pub quantity: Option<i64>,
    /// IEEE 754 bit pattern.
    pub price: Option<u64>,
}

impl ProtoMessage for UpdateOrderDetailRequest {
    open spec fn spec_schema() -> Seq<Kind> {
        seq![Kind::Int64, Kind::OptInt64, Kind::OptInt64, Kind::OptInt64, Kind::OptDouble]
    }

    open spec fn spec_values(&self) -> Seq<ScalarValue> {
        seq![
            ScalarValue::Int64(self.order_detail_id),
            ScalarValue::OptInt64(self.order_id),
            ScalarValue::OptInt64(self.product_id),
            ScalarValue::OptInt64(self.quantity),
            ScalarValue::OptDouble(self.price),
        ]
    }

    fn schema() -> (r: Vec<Kind>) {
        vec![Kind::Int64, Kind::OptInt64, Kind::OptInt64, Kind::OptInt64, Kind::OptDouble]
    }

    fn to_scalars(&self) -> (r: Vec<Scalar>) {
        let r = vec![
            Scalar::Int64(self.order_detail_id),
            Scalar::OptInt64(self.order_id),
            Scalar::OptInt64(self.product_id),
            Scalar::OptInt64(self.quantity),
            Scalar::OptDouble(self.price),
        ];
        assert(values_of(r@) =~= self.spec_values());
        r
    }

    fn from_scalars(v: Vec<Scalar>) -> (r: Self) {
        let ghost vals = values_of(v@);
        proof {
            assert(kind_of(vals[0]) == Kind::Int64);
            assert(kind_of(vals[1]) == Kind::OptInt64);
            assert(kind_of(vals[2]) == Kind::OptInt64);
            assert(kind_of(vals[3]) == Kind::OptInt64);
            assert(kind_of(vals[4]) == Kind::OptDouble);
        }
        let mut v = v;
        let price = pop_opt_double(&mut v);
        let quantity = pop_opt_int64(&mut v);
        let product_id = pop_opt_int64(&mut v);
        let order_id = pop_opt_int64(&mut v);
        let order_detail_id = pop_int64(&mut v);
        let r = UpdateOrderDetailRequest { order_detail_id, order_id, product_id, quantity, price };
        assert(r.spec_values() =~= vals);
        r
    }

    proof fn lemma_schema(&self) {
        let vals = self.spec_values();
        let schema = Self::spec_schema();
        assert(vals.len() == 5 && schema.len() == 5);
        assert forall|i: int| 0 <= i < vals.len() implies #[trigger] kind_of(vals[i]) == schema[i] by {
            if i == 0 {} else if i == 1 {} else if i == 2 {} else if i == 3 {} else {}
        }
    }
}

impl Default for UpdateOrderDetailRequest {
    fn default() -> (r: Self)
        ensures
            r.spec_values() == defaults(Self::spec_schema()),
    {
        let r = UpdateOrderDetailRequest { order_detail_id: 0, order_id: None, product_id: None, quantity: None, price: None };
        assert(r.spec_values() =~= defaults(Self::spec_schema()));
        r
    }
}

#[derive(Clone, Debug)]
pub struct DeleteOrderDetailRequest {
    pub order_detail_id: i64,
}

impl ProtoMessage for DeleteOrderDetailRequest {
    open spec fn spec_schema() -> Seq<Kind> {
        seq![Kind::Int64]
    }

    open spec fn spec_values(&self) -> Seq<ScalarValue> {
        seq![
            ScalarValue::Int64(self.order_detail_id),
        ]
    }

    fn schema() -> (r: Vec<Kind>) {
        vec![Kind::Int64]
    }

    fn to_scalars(&self) -> (r: Vec<Scalar>) {
        let r = vec![
            Scalar::Int64(self.order_detail_id),
        ];
        assert(values_of(r@) =~= self.spec_values());
        r
    }

    fn from_scalars(v: Vec<Scalar>) -> (r: Self) {
        let ghost vals = values_of(v@);
        proof {
            assert(kind_of(vals[0]) == Kind::Int64);
        }
        let mut v = v;
        let order_detail_id = pop_int64(&mut v);
        let r = DeleteOrderDetailRequest { order_detail_id };
        assert(r.spec_values() =~= vals);
        r
    }

    proof fn lemma_schema(&self) {
        let vals = self.spec_values();
        let schema = Self::spec_schema();
        assert(vals.len() == 1 && schema.len() == 1);
        assert forall|i: int| 0 <= i < vals.len() implies #[trigger] kind_of(vals[i]) == schema[i] by {
            assert(i == 0);
        }
    }
}

impl Default for DeleteOrderDetailRequest {
    fn default() -> (r: Self)
        ensures
            r.spec_values() == defaults(Self::spec_schema()),
    {
        let r = DeleteOrderDetailRequest { order_detail_id: 0 };
        assert(r.spec_values() =~= defaults(Self::spec_schema()));
        r
    }
}

#[derive(Clone, Debug)]
pub struct OrderDetailResponse {
    pub order_detail_id: i64,
    pub order_id: i64,
    pub product_id: i64,
    pub quantity: i64,
    /// IEEE 754 bit pattern.
    pub price: u64,
}

impl ProtoMessage for OrderDetailResponse {
    open spec fn spec_schema() -> Seq<Kind> {
        seq![Kind::Int64, Kind::Int64, Kind::Int64, Kind::Int64, Kind::Double]
    }

    open spec fn spec_values(&self) -> Seq<ScalarValue> {
        seq![
            ScalarValue::Int64(self.order_detail_id),
            ScalarValue::Int64(self.order_id),
            ScalarValue::Int64(self.product_id),
            ScalarValue::Int64(self.quantity),
            ScalarValue::Double(self.price),
        ]
    }

    fn schema() -> (r: Vec<Kind>) {
        vec![Kind::Int64, Kind::Int64, Kind::Int64, Kind::Int64, Kind::Double]
    }

    fn to_scalars(&self) -> (r: Vec<Scalar>) {
        let r = vec![
            Scalar::Int64(self.order_detail_id),
            Scalar::Int64(self.order_id),
            Scalar::Int64(self.product_id),
            Scalar::Int64(self.quantity),
            Scalar::Double(self.price),
        ];
        assert(values_of(r@) =~= self.spec_values());
        r
    }

    fn from_scalars(v: Vec<Scalar>) -> (r: Self) {
        let ghost vals = values_of(v@);
        proof {
            assert(kind_of(vals[0]) == Kind::Int64);
            assert(kind_of(vals[1]) == Kind::Int64);
            assert(kind_of(vals[2]) == Kind::Int64);
            assert(kind_of(vals[3]) == Kind::Int64);
            assert(kind_of(vals[4]) == Kind::Double);
        }
        let mut v = v;
        let price = pop_double(&mut v);
        let quantity = pop_int64(&mut v);
        let product_id = pop_int64(&mut v);
        let order_id = pop_int64(&mut v);
        let order_detail_id = pop_int64(&mut v);
        let r = OrderDetailResponse { order_detail_id, order_id, product_id, quantity, price };
        assert(r.spec_values() =~= vals);
        r
    }

    proof fn lemma_schema(&self) {
        let vals = self.spec_values();
        let schema = Self::spec_schema();
        assert(vals.len() == 5 && schema.len() == 5);
        assert forall|i: int| 0 <= i < vals.len() implies #[trigger] kind_of(vals[i]) == schema[i] by {
            if i == 0 {} else if i == 1 {} else if i == 2 {} else if i == 3 {} else {}
        }
    }
}

impl Default for OrderDetailResponse {
    fn default() -> (r: Self)
        ensures
            r.spec_values() == defaults(Self::spec_schema()),
    {
        let r = OrderDetailResponse { order_detail_id: 0, order_id: 0, product_id: 0, quantity: 0, price: 0 };
        assert(r.spec_values() =~= defaults(Self::spec_schema()));
        r
    }
}

#[derive(Clone, Debug)]
pub struct OrderDetailsResponse {
    pub items: Vec<OrderDetailResponse>,
}

impl ProtoList for OrderDetailsResponse {
    type Item = OrderDetailResponse;

    open spec fn spec_items(&self) -> Seq<OrderDetailResponse> {
        self.items@
    }

    fn items(&self) -> (r: &Vec<OrderDetailResponse>) {
        &self.items
    }

    fn from_items(items: Vec<OrderDetailResponse>) -> (r: Self) {
        OrderDetailsResponse { items }
    }
}

impl Default for OrderDetailsResponse {
    fn default() -> (r: Self)
        ensures
            r.spec_items() == Seq::<OrderDetailResponse>::empty(),
    {
        OrderDetailsResponse { items: Vec::new() }
    }
}

#[derive(Clone, Debug)]
pub struct CreateReviewRequest {
    pub product_id: i64,
    pub user_id: i64,
    pub rating: i64,
    pub comment: String,
}

impl ProtoMessage for CreateReviewRequest {
    open spec fn spec_schema() -> Seq<Kind> {
        seq![Kind::Int64, Kind::Int64, Kind::Int64, Kind::Str]
    }

    open spec fn spec_values(&self) -> Seq<ScalarValue> {
        seq![
            ScalarValue::Int64(self.product_id),
            ScalarValue::Int64(self.user_id),
            ScalarValue::Int64(self.rating),
            ScalarValue::Str(self.comment@),
        ]
    }

    fn schema() -> (r: Vec<Kind>) {
        vec![Kind::Int64, Kind::Int64, Kind::Int64, Kind::Str]
    }

    fn to_scalars(&self) -> (r: Vec<Scalar>) {
        let r = vec![
            Scalar::Int64(self.product_id),
            Scalar::Int64(self.user_id),
            Scalar::Int64(self.rating),
            Scalar::Str(self.comment.clone()),
        ];
        assert(values_of(r@) =~= self.spec_values());
        r
    }

    fn from_scalars(v: Vec<Scalar>) -> (r: Self) {
        let ghost vals = values_of(v@);
        proof {
            assert(kind_of(vals[0]) == Kind::Int64);
            assert(kind_of(vals[1]) == Kind::Int64);
            assert(kind_of(vals[2]) == Kind::Int64);
            assert(kind_of(vals[3]) == Kind::Str);
        }
        let mut v = v;
        let comment = pop_str(&mut v);
        let rating = pop_int64(&mut v);
        let user_id = pop_int64(&mut v);
        let product_id = pop_int64(&mut v);
        let r = CreateReviewRequest { product_id, user_id, rating, comment };
        assert(r.spec_values() =~= vals);
        r
    }

    proof fn lemma_schema(&self) {
        let vals = self.spec_values();
        let schema = Self::spec_schema();
        assert(vals.len() == 4 && schema.len() == 4);
        assert forall|i: int| 0 <= i < vals.len() implies #[trigger] kind_of(vals[i]) == schema[i] by {
            if i == 0 {} else if i == 1 {} else if i == 2 {} else {}
        }
    }
}

impl Default for CreateReviewRequest {
    fn default() -> (r: Self)
        ensures
            r.spec_values() == defaults(Self::spec_schema()),
    {
        let r = CreateReviewRequest { product_id: 0, user_id: 0, rating: 0, comment: String::new() };
        assert(r.spec_values() =~= defaults(Self::spec_schema()));
        r
    }
}

#[derive(Clone, Debug)]
pub struct GetReviewRequest {
    pub review_id: i64,
}

impl ProtoMessage for GetReviewRequest {
    open spec fn spec_schema() -> Seq<Kind> {
        seq![Kind::Int64]
    }

    open spec fn spec_values(&self) -> Seq<ScalarValue> {
        seq![
            ScalarValue::Int64(self.review_id),
        ]
    }

    fn schema() -> (r: Vec<Kind>) {
        vec![Kind::Int64]
    }

    fn to_scalars(&self) -> (r: Vec<Scalar>) {
        let r = vec![
            Scalar::Int64(self.review_id),
        ];
        assert(values_of(r@) =~= self.spec_values());
        r
    }

    fn from_scalars(v: Vec<Scalar>) -> (r: Self) {
        let ghost vals = values_of(v@);
        proof {
            assert(kind_of(vals[0]) == Kind::Int64);
        }
        let mut v = v;
        let review_id = pop_int64(&mut v);
        let r = GetReviewRequest { review_id };
        assert(r.spec_values() =~= vals);
        r
    }

    proof fn lemma_schema(&self) {
        let vals = self.spec_values();
        let schema = Self::spec_schema();
        assert(vals.len() == 1 && schema.len() == 1);
        assert forall|i: int| 0 <= i < vals.len() implies #[trigger] kind_of(vals[i]) == schema[i] by {
            assert(i == 0);
        }
    }
}

impl Default for GetReviewRequest {
    fn default() -> (r: Self)
        ensures
            r.spec_values() == defaults(Self::spec_schema()),
    {
        let r = GetReviewRequest { review_id: 0 };
        assert(r.spec_values() =~= defaults(Self::spec_schema()));
        r
    }
}

#[derive(Clone, Debug)]
pub struct UpdateReviewRequest {
    pub review_id: i64,
    pub product_id: Option<i64>,
    pub user_id: Option<i64>,
    pub rating: Option<i64>,
    pub comment: Option<String>,
}

impl ProtoMessage for UpdateReviewRequest {
    open spec fn spec_schema() -> Seq<Kind> {
        seq![Kind::Int64, Kind::OptInt64, Kind::OptInt64, Kind::OptInt64, Kind::OptStr]
    }

    open spec fn spec_values(&self) -> Seq<ScalarValue> {
        seq![
            ScalarValue::Int64(self.review_id),
            ScalarValue::OptInt64(self.product_id),
            ScalarValue::OptInt64(self.user_id),
            ScalarValue::OptInt64(self.rating),
            ScalarValue::OptStr(opt_chars(self.comment)),
        ]
    }

    fn schema() -> (r: Vec<Kind>) {
        vec![Kind::Int64, Kind::OptInt64, Kind::OptInt64, Kind::OptInt64, Kind::OptStr]
    }

    fn to_scalars(&self) -> (r: Vec<Scalar>) {
        let r = vec![
            Scalar::Int64(self.review_id),
            Scalar::OptInt64(self.product_id),
            Scalar::OptInt64(self.user_id),
            Scalar::OptInt64(self.rating),
            opt_str_scalar(&self.comment),
        ];
        assert(values_of(r@) =~= self.spec_values());
        r
    }

    fn from_scalars(v: Vec<Scalar>) -> (r: Self) {
        let ghost vals = values_of(v@);
        proof {
            assert(kind_of(vals[0]) == Kind::Int64);
            assert(kind_of(vals[1]) == Kind::OptInt64);
            assert(kind_of(vals[2]) == Kind::OptInt64);
            assert(kind_of(vals[3]) == Kind::OptInt64);
            assert(kind_of(vals[4]) == Kind::OptStr);
        }
        let mut v = v;
        let comment = pop_opt_str(&mut v);
        let rating = pop_opt_int64(&mut v);
        let user_id = pop_opt_int64(&mut v);
        let product_id = pop_opt_int64(&mut v);
        let review_id = pop_int64(&mut v);
        let r = UpdateReviewRequest { review_id, product_id, user_id, rating, comment };
        assert(r.spec_values() =~= vals);
        r
    }

    proof fn lemma_schema(&self) {
        let vals = self.spec_values();
        let schema = Self::spec_schema();
        assert(vals.len() == 5 && schema.len() == 5);
        assert forall|i: int| 0 <= i < vals.len() implies #[trigger] kind_of(vals[i]) == schema[i] by {
            if i == 0 {} else if i == 1 {} else if i == 2 {} else if i == 3 {} else {}
        }
    }
}

impl Default for UpdateReviewRequest {
    fn default() -> (r: Self)
        ensures
            r.spec_values() == defaults(Self::spec_schema()),
    {
        let r = UpdateReviewRequest { review_id: 0, product_id: None, user_id: None, rating: None, comment: None };
        assert(r.spec_values() =~= defaults(Self::spec_schema()));
        r
    }
}

#[derive(Clone, Debug)]
pub struct DeleteReviewRequest {
    pub review_id: i64,
}

impl ProtoMessage for DeleteReviewRequest {
    open spec fn spec_schema() -> Seq<Kind> {
        seq![Kind::Int64]
    }

    open spec fn spec_values(&self) -> Seq<ScalarValue> {
        seq![
            ScalarValue::Int64(self.review_id),
        ]
    }

    fn schema() -> (r: Vec<Kind>) {
        vec![Kind::Int64]
    }

    fn to_scalars(&self) -> (r: Vec<Scalar>) {
        let r = vec![
            Scalar::Int64(self.review_id),
        ];
        assert(values_of(r@) =~= self.spec_values());
        r
    }

    fn from_scalars(v: Vec<Scalar>) -> (r: Self) {
        let ghost vals = values_of(v@);
        proof {
            assert(kind_of(vals[0]) == Kind::Int64);
        }
        let mut v = v;
        let review_id = pop_int64(&mut v);
        let r = DeleteReviewRequest { review_id };
        assert(r.spec_values() =~= vals);
        r
    }

    proof fn lemma_schema(&self) {
        let vals = self.spec_values();
        let schema = Self::spec_schema();
        assert(vals.len() == 1 && schema.len() == 1);
        assert forall|i: int| 0 <= i < vals.len() implies #[trigger] kind_of(vals[i]) == schema[i] by {
            assert(i == 0);
        }
    }
}

impl Default for DeleteReviewRequest {
    fn default() -> (r: Self)
        ensures
            r.spec_values() == defaults(Self::spec_schema()),
    {
        let r = DeleteReviewRequest { review_id: 0 };
        assert(r.spec_values() =~= defaults(Self::spec_schema()));
        r
    }
}

#[derive(Clone, Debug)]
pub struct ReviewResponse {
    pub review_id: i64,
    pub product_id: i64,
    pub user_id: i64,
    pub rating: i64,
    pub comment: String,
}

impl ProtoMessage for ReviewResponse {
    open spec fn spec_schema() -> Seq<Kind> {
        seq![Kind::Int64, Kind::Int64, Kind::Int64, Kind::Int64, Kind::Str]
    }

    open spec fn spec_values(&self) -> Seq<ScalarValue> {
        seq![
            ScalarValue::Int64(self.review_id),
            ScalarValue::Int64(self.product_id),
            ScalarValue::Int64(self.user_id),
            ScalarValue::Int64(self.rating),
            ScalarValue::Str(self.comment@),
        ]
    }

    fn schema() -> (r: Vec<Kind>) {
        vec![Kind::Int64, Kind::Int64, Kind::Int64, Kind::Int64, Kind::Str]
    }

    fn to_scalars(&self) -> (r: Vec<Scalar>) {
        let r = vec![
            Scalar::Int64(self.review_id),
            Scalar::Int64(self.product_id),
            Scalar::Int64(self.user_id),
            Scalar::Int64(self.rating),
            Scalar::Str(self.comment.clone()),
        ];
        assert(values_of(r@) =~= self.spec_values());
        r
    }

    fn from_scalars(v: Vec<Scalar>) -> (r: Self) {
        let ghost vals = values_of(v@);
        proof {
            assert(kind_of(vals[0]) == Kind::Int64);
            assert(kind_of(vals[1]) == Kind::Int64);
            assert(kind_of(vals[2]) == Kind::Int64);
            assert(kind_of(vals[3]) == Kind::Int64);
            assert(kind_of(vals[4]) == Kind::Str);
        }
        let mut v = v;
        let comment = pop_str(&mut v);
        let rating = pop_int64(&mut v);
        let user_id = pop_int64(&mut v);
        let product_id = pop_int64(&mut v);
        let review_id = pop_int64(&mut v);
        let r = ReviewResponse { review_id, product_id, user_id, rating, comment };
        assert(r.spec_values() =~= vals);
        r
    }

    proof fn lemma_schema(&self) {
        let vals = self.spec_values();
        let schema = Self::spec_schema();
        assert(vals.len() == 5 && schema.len() == 5);
        assert forall|i: int| 0 <= i < vals.len() implies #[trigger] kind_of(vals[i]) == schema[i] by {
            if i == 0 {} else if i == 1 {} else if i == 2 {} else if i == 3 {} else {}
        }
    }
}

impl Default for ReviewResponse {
    fn default() -> (r: Self)
        ensures
            r.spec_values() == defaults(Self::spec_schema()),
    {
        let r = ReviewResponse { review_id: 0, product_id: 0, user_id: 0, rating: 0, comment: String::new() };
        assert(r.spec_values() =~= defaults(Self::spec_schema()));
        r
    }
}

#[derive(Clone, Debug)]
pub struct ReviewsResponse {
    pub items: Vec<ReviewResponse>,
}

impl ProtoList for ReviewsResponse {
    type Item = ReviewResponse;

    open spec fn spec_items(&self) -> Seq<ReviewResponse> {
        self.items@
    }

    fn items(&self) -> (r: &Vec<ReviewResponse>) {
        &self.items
    }

    fn from_items(items: Vec<ReviewResponse>) -> (r: Self) {
        ReviewsResponse { items }
    }
}

impl Default for ReviewsResponse {
    fn default() -> (r: Self)
        ensures
            r.spec_items() == Seq::<ReviewResponse>::empty(),
    {
        ReviewsResponse { items: Vec::new() }
    }
}

#[derive(Clone, Debug)]
pub struct CreateProductImageRequest {
    pub product_id: i64,
    pub image_url: String,
    pub alt_text: String,
}

impl ProtoMessage for CreateProductImageRequest {
    open spec fn spec_schema() -> Seq<Kind> {
        seq![Kind::Int64, Kind::Str, Kind::Str]
    }

    open spec fn spec_values(&self) -> Seq<ScalarValue> {
        seq![
            ScalarValue::Int64(self.product_id),
            ScalarValue::Str(self.image_url@),
            ScalarValue::Str(self.alt_text@),
        ]
    }

    fn schema() -> (r: Vec<Kind>) {
        vec![Kind::Int64, Kind::Str, Kind::Str]
    }

    fn to_scalars(&self) -> (r: Vec<Scalar>) {
        let r = vec![
            Scalar::Int64(self.product_id),
            Scalar::Str(self.image_url.clone()),
            Scalar::Str(self.alt_text.clone()),
        ];
        assert(values_of(r@) =~= self.spec_values());
        r
    }

    fn from_scalars(v: Vec<Scalar>) -> (r: Self) {
        let ghost vals = values_of(v@);
        proof {
            assert(kind_of(vals[0]) == Kind::Int64);
            assert(kind_of(vals[1]) == Kind::Str);
            assert(kind_of(vals[2]) == Kind::Str);
        }
        let mut v = v;
        let alt_text = pop_str(&mut v);
        let image_url = pop_str(&mut v);
        let product_id = pop_int64(&mut v);
        let r = CreateProductImageRequest { product_id, image_url, alt_text };
        assert(r.spec_values() =~= vals);
        r
    }

    proof fn lemma_schema(&self) {
        let vals = self.spec_values();
        let schema = Self::spec_schema();
        assert(vals.len() == 3 && schema.len() == 3);
        assert forall|i: int| 0 <= i < vals.len() implies #[trigger] kind_of(vals[i]) == schema[i] by {
            if i == 0 {} else if i == 1 {} else {}
        }
    }
}

impl Default for CreateProductImageRequest {
    fn default() -> (r: Self)
        ensures
            r.spec_values() == defaults(Self::spec_schema()),
    {
        let r = CreateProductImageRequest { product_id: 0, image_url: String::new(), alt_text: String::new() };
        assert(r.spec_values() =~= defaults(Self::spec_schema()));
        r
    }
}

#[derive(Clone, Debug)]
pub struct GetProductImageRequest {
    pub image_id: i64,
}

impl ProtoMessage for GetProductImageRequest {
    open spec fn spec_schema() -> Seq<Kind> {
        seq![Kind::Int64]
    }

    open spec fn spec_values(&self) -> Seq<ScalarValue> {
        seq![
            ScalarValue::Int64(self.image_id),
        ]
    }

    fn schema() -> (r: Vec<Kind>) {
        vec![Kind::Int64]
    }

    fn to_scalars(&self) -> (r: Vec<Scalar>) {
        let r = vec![
            Scalar::Int64(self.image_id),
        ];
        assert(values_of(r@) =~= self.spec_values());
        r
    }

    fn from_scalars(v: Vec<Scalar>) -> (r: Self) {
        let ghost vals = values_of(v@);
        proof {
            assert(kind_of(vals[0]) == Kind::Int64);
        }
        let mut v = v;
        let image_id = pop_int64(&mut v);
        let r = GetProductImageRequest { image_id };
        assert(r.spec_values() =~= vals);
        r
    }

    proof fn lemma_schema(&self) {
        let vals = self.spec_values();
        let schema = Self::spec_schema();
        assert(vals.len() == 1 && schema.len() == 1);
        assert forall|i: int| 0 <= i < vals.len() implies #[trigger] kind_of(vals[i]) == schema[i] by {
            assert(i == 0);
        }
    }
}

impl Default for GetProductImageRequest {
    fn default() -> (r: Self)
        ensures
            r.spec_values() == defaults(Self::spec_schema()),
    {
        let r = GetProductImageRequest { image_id: 0 };
        assert(r.spec_values() =~= defaults(Self::spec_schema()));
        r
    }
}

#[derive(Clone, Debug)]
pub struct UpdateProductImageRequest {
    pub image_id: i64,
    pub product_id: Option<i64>,
    pub image_url: Option<String>,
    pub alt_text: Option<String>,
}

impl ProtoMessage for UpdateProductImageRequest {
    open spec fn spec_schema() -> Seq<Kind> {
        seq![Kind::Int64, Kind::OptInt64, Kind::OptStr, Kind::OptStr]
    }

    open spec fn spec_values(&self) -> Seq<ScalarValue> {
        seq![
            ScalarValue::Int64(self.image_id),
            ScalarValue::OptInt64(self.product_id),
            ScalarValue::OptStr(opt_chars(self.image_url)),
            ScalarValue::OptStr(opt_chars(self.alt_text)),
        ]
    }

    fn schema() -> (r: Vec<Kind>) {
        vec![Kind::Int64, Kind::OptInt64, Kind::OptStr, Kind::OptStr]
    }

    fn to_scalars(&self) -> (r: Vec<Scalar>) {
        let r = vec![
            Scalar::Int64(self.image_id),
            Scalar::OptInt64(self.product_id),
            opt_str_scalar(&self.image_url),
            opt_str_scalar(&self.alt_text),
        ];
        assert(values_of(r@) =~= self.spec_values());
        r
    }

    fn from_scalars(v: Vec<Scalar>) -> (r: Self) {
        let ghost vals = values_of(v@);
        proof {
            assert(kind_of(vals[0]) == Kind::Int64);
            assert(kind_of(vals[1]) == Kind::OptInt64);
            assert(kind_of(vals[2]) == Kind::OptStr);
            assert(kind_of(vals[3]) == Kind::OptStr);
        }
        let mut v = v;
        let alt_text = pop_opt_str(&mut v);
        let image_url = pop_opt_str(&mut v);
        let product_id = pop_opt_int64(&mut v);
        let image_id = pop_int64(&mut v);
        let r = UpdateProductImageRequest { image_id, product_id, image_url, alt_text };
        assert(r.spec_values() =~= vals);
        r
    }

    proof fn lemma_schema(&self) {
        let vals = self.spec_values();
        let schema = Self::spec_schema();
        assert(vals.len() == 4 && schema.len() == 4);
        assert forall|i: int| 0 <= i < vals.len() implies #[trigger] kind_of(vals[i]) == schema[i] by {
            if i == 0 {} else if i == 1 {} else if i == 2 {} else {}
        }
    }
}

impl Default for UpdateProductImageRequest {
    fn default() -> (r: Self)
        ensures
            r.spec_values() == defaults(Self::spec_schema()),
    {
        let r = UpdateProductImageRequest { image_id: 0, product_id: None, image_url: None, alt_text: None };
        assert(r.spec_values() =~= defaults(Self::spec_schema()));
        r
    }
}

#[derive(Clone, Debug)]
pub struct DeleteProductImageRequest {
    pub image_id: i64,
}

impl ProtoMessage for DeleteProductImageRequest {
    open spec fn spec_schema() -> Seq<Kind> {
        seq![Kind::Int64]
    }

    open spec fn spec_values(&self) -> Seq<ScalarValue> {
        seq![
            ScalarValue::Int64(self.image_id),
        ]
    }

    fn schema() -> (r: Vec<Kind>) {
        vec![Kind::Int64]
    }

    fn to_scalars(&self) -> (r: Vec<Scalar>) {
        let r = vec![
            Scalar::Int64(self.image_id),
        ];
        assert(values_of(r@) =~= self.spec_values());
        r
    }

    fn from_scalars(v: Vec<Scalar>) -> (r: Self) {
        let ghost vals = values_of(v@);
        proof {
            assert(kind_of(vals[0]) == Kind::Int64);
        }
        let mut v = v;
        let image_id = pop_int64(&mut v);
        let r = DeleteProductImageRequest { image_id };
        assert(r.spec_values() =~= vals);
        r
    }

    proof fn lemma_schema(&self) {
        let vals = self.spec_values();
        let schema = Self::spec_schema();
        assert(vals.len() == 1 && schema.len() == 1);
        assert forall|i: int| 0 <= i < vals.len() implies #[trigger] kind_of(vals[i]) == schema[i] by {
            assert(i == 0);
        }
    }
}

impl Default for DeleteProductImageRequest {
    fn default() -> (r: Self)
        ensures
            r.spec_values() == defaults(Self::spec_schema()),
    {
        let r = DeleteProductImageRequest { image_id: 0 };
        assert(r.spec_values() =~= defaults(Self::spec_schema()));
        r
    }
}

#[derive(Clone, Debug)]
pub struct ProductImageResponse {
    pub image_id: i64,
    pub product_id: i64,
    pub image_url: String,
    pub alt_text: String,
}

impl ProtoMessage for ProductImageResponse {
    open spec fn spec_schema() -> Seq<Kind> {
        seq![Kind::Int64, Kind::Int64, Kind::Str, Kind::Str]
    }

    open spec fn spec_values(&self) -> Seq<ScalarValue> {
        seq![
            ScalarValue::Int64(self.image_id),
            ScalarValue::Int64(self.product_id),
            ScalarValue::Str(self.image_url@),
            ScalarValue::Str(self.alt_text@),
        ]
    }

    fn schema() -> (r: Vec<Kind>) {
        vec![Kind::Int64, Kind::Int64, Kind::Str, Kind::Str]
    }

    fn to_scalars(&self) -> (r: Vec<Scalar>) {
        let r = vec![
            Scalar::Int64(self.image_id),
            Scalar::Int64(self.product_id),
            Scalar::Str(self.image_url.clone()),
            Scalar::Str(self.alt_text.clone()),
        ];
        assert(values_of(r@) =~= self.spec_values());
        r
    }

    fn from_scalars(v: Vec<Scalar>) -> (r: Self) {
        let ghost vals = values_of(v@);
        proof {
            assert(kind_of(vals[0]) == Kind::Int64);
            assert(kind_of(vals[1]) == Kind::Int64);
            assert(kind_of(vals[2]) == Kind::Str);
            assert(kind_of(vals[3]) == Kind::Str);
        }
        let mut v = v;
        let alt_text = pop_str(&mut v);
        let image_url = pop_str(&mut v);
        let product_id = pop_int64(&mut v);
        let image_id = pop_int64(&mut v);
        let r = ProductImageResponse { image_id, product_id, image_url, alt_text };
        assert(r.spec_values() =~= vals);
        r
    }

    proof fn lemma_schema(&self) {
        let vals = self.spec_values();
        let schema = Self::spec_schema();
        assert(vals.len() == 4 && schema.len() == 4);
        assert forall|i: int| 0 <= i < vals.len() implies #[trigger] kind_of(vals[i]) == schema[i] by {
            if i == 0 {} else if i == 1 {} else if i == 2 {} else {}
        }
    }
}

impl Default for ProductImageResponse {
    fn default() -> (r: Self)
        ensures
            r.spec_values() == defaults(Self::spec_schema()),
    {
        let r = ProductImageResponse { image_id: 0, product_id: 0, image_url: String::new(), alt_text: String::new() };
        assert(r.spec_values() =~= defaults(Self::spec_schema()));
        r
    }
}

#[derive(Clone, Debug)]
pub struct ProductImagesResponse {
    pub items: Vec<ProductImageResponse>,
}

impl ProtoList for ProductImagesResponse {
    type Item = ProductImageResponse;

    open spec fn spec_items(&self) -> Seq<ProductImageResponse> {
        self.items@
    }

    fn items(&self) -> (r: &Vec<ProductImageResponse>) {
        &self.items
    }

    fn from_items(items: Vec<ProductImageResponse>) -> (r: Self) {
        ProductImagesResponse { items }
    }
}

impl Default for ProductImagesResponse {
    fn default() -> (r: Self)
        ensures
            r.spec_items() == Seq::<ProductImageResponse>::empty(),
    {
        ProductImagesResponse { items: Vec::new() }
    }
}

#[derive(Clone, Debug)]
pub struct CreateSupplierRequest {
    pub name: String,
    pub contact_info: String,
    pub address: String,
}

impl ProtoMessage for CreateSupplierRequest {
    open spec fn spec_schema() -> Seq<Kind> {
        seq![Kind::Str, Kind::Str, Kind::Str]
    }

    open spec fn spec_values(&self) -> Seq<ScalarValue> {
        seq![
            ScalarValue::Str(self.name@),
            ScalarValue::Str(self.contact_info@),
            ScalarValue::Str(self.address@),
        ]
    }

    fn schema() -> (r: Vec<Kind>) {
        vec![Kind::Str, Kind::Str, Kind::Str]
    }

    fn to_scalars(&self) -> (r: Vec<Scalar>) {
        let r = vec![
            Scalar::Str(self.name.clone()),
            Scalar::Str(self.contact_info.clone()),
            Scalar::Str(self.address.clone()),
        ];
        assert(values_of(r@) =~= self.spec_values());
        r
    }

    fn from_scalars(v: Vec<Scalar>) -> (r: Self) {
        let ghost vals = values_of(v@);
        proof {
            assert(kind_of(vals[0]) == Kind::Str);
            assert(kind_of(vals[1]) == Kind::Str);
            assert(kind_of(vals[2]) == Kind::Str);
        }
        let mut v = v;
        let address = pop_str(&mut v);
        let contact_info = pop_str(&mut v);
        let name = pop_str(&mut v);
        let r = CreateSupplierRequest { name, contact_info, address };
        assert(r.spec_values() =~= vals);
        r
    }

    proof fn lemma_schema(&self) {
        let vals = self.spec_values();
        let schema = Self::spec_schema();
        assert(vals.len() == 3 && schema.len() == 3);
        assert forall|i: int| 0 <= i < vals.len() implies #[trigger] kind_of(vals[i]) == schema[i] by {
            if i == 0 {} else if i == 1 {} else {}
        }
    }
}

impl Default for CreateSupplierRequest {
    fn default() -> (r: Self)
        ensures
            r.spec_values() == defaults(Self::spec_schema()),
    {
        let r = CreateSupplierRequest { name: String::new(), contact_info: String::new(), address: String::new() };
        assert(r.spec_values() =~= defaults(Self::spec_schema()));
        r
    }
}

#[derive(Clone, Debug)]
pub struct GetSupplierRequest {
    pub supplier_id: i64,
}

impl ProtoMessage for GetSupplierRequest {
    open spec fn spec_schema() -> Seq<Kind> {
        seq![Kind::Int64]
    }

    open spec fn spec_values(&self) -> Seq<ScalarValue> {
        seq![
            ScalarValue::Int64(self.supplier_id),
        ]
    }

    fn schema() -> (r: Vec<Kind>) {
        vec![Kind::Int64]
    }

    fn to_scalars(&self) -> (r: Vec<Scalar>) {
        let r = vec![
            Scalar::Int64(self.supplier_id),
        ];
        assert(values_of(r@) =~= self.spec_values());
        r
    }

    fn from_scalars(v: Vec<Scalar>) -> (r: Self) {
        let ghost vals = values_of(v@);
        proof {
            assert(kind_of(vals[0]) == Kind::Int64);
        }
        let mut v = v;
        let supplier_id = pop_int64(&mut v);
        let r = GetSupplierRequest { supplier_id };
        assert(r.spec_values() =~= vals);
        r
    }

    proof fn lemma_schema(&self) {
        let vals = self.spec_values();
        let schema = Self::spec_schema();
        assert(vals.len() == 1 && schema.len() == 1);
        assert forall|i: int| 0 <= i < vals.len() implies #[trigger] kind_of(vals[i]) == schema[i] by {
            assert(i == 0);
        }
    }
}

impl Default for GetSupplierRequest {
    fn default() -> (r: Self)
        ensures
            r.spec_values() == defaults(Self::spec_schema()),
    {
        let r = GetSupplierRequest { supplier_id: 0 };
        assert(r.spec_values() =~= defaults(Self::spec_schema()));
        r
    }
}

#[derive(Clone, Debug)]
pub struct UpdateSupplierRequest {
    pub supplier_id: i64,
    pub name: Option<String>,
    pub contact_info: Option<String>,
    pub address: Option<String>,
}

impl ProtoMessage for UpdateSupplierRequest {
    open spec fn spec_schema() -> Seq<Kind> {
        seq![Kind::Int64, Kind::OptStr, Kind::OptStr, Kind::OptStr]
    }

    open spec fn spec_values(&self) -> Seq<ScalarValue> {
        seq![
            ScalarValue::Int64(self.supplier_id),
            ScalarValue::OptStr(opt_chars(self.name)),
            ScalarValue::OptStr(opt_chars(self.contact_info)),
            ScalarValue::OptStr(opt_chars(self.address)),
        ]
    }

    fn schema() -> (r: Vec<Kind>) {
        vec![Kind::Int64, Kind::OptStr, Kind::OptStr, Kind::OptStr]
    }

    fn to_scalars(&self) -> (r: Vec<Scalar>) {
        let r = vec![
            Scalar::Int64(self.supplier_id),
            opt_str_scalar(&self.name),
            opt_str_scalar(&self.contact_info),
            opt_str_scalar(&self.address),
        ];
        assert(values_of(r@) =~= self.spec_values());
        r
    }

    fn from_scalars(v: Vec<Scalar>) -> (r: Self) {
        let ghost vals = values_of(v@);
        proof {
            assert(kind_of(vals[0]) == Kind::Int64);
            assert(kind_of(vals[1]) == Kind::OptStr);
            assert(kind_of(vals[2]) == Kind::OptStr);
            assert(kind_of(vals[3]) == Kind::OptStr);
        }
        let mut v = v;
        let address = pop_opt_str(&mut v);
        let contact_info = pop_opt_str(&mut v);
        let name = pop_opt_str(&mut v);
        let supplier_id = pop_int64(&mut v);
        let r = UpdateSupplierRequest { supplier_id, name, contact_info, address };
        assert(r.spec_values() =~= vals);
        r
    }

    proof fn lemma_schema(&self) {
        let vals = self.spec_values();
        let schema = Self::spec_schema();
        assert(vals.len() == 4 && schema.len() == 4);
        assert forall|i: int| 0 <= i < vals.len() implies #[trigger] kind_of(vals[i]) == schema[i] by {
            if i == 0 {} else if i == 1 {} else if i == 2 {} else {}
        }
    }
}

impl Default for UpdateSupplierRequest {
    fn default() -> (r: Self)
        ensures
            r.spec_values() == defaults(Self::spec_schema()),
    {
        let r = UpdateSupplierRequest { supplier_id: 0, name: None, contact_info: None, address: None };
        assert(r.spec_values() =~= defaults(Self::spec_schema()));
        r
    }
}

#[derive(Clone, Debug)]
pub struct DeleteSupplierRequest {
    pub supplier_id: i64,
}

impl ProtoMessage for DeleteSupplierRequest {
    open spec fn spec_schema() -> Seq<Kind> {
        seq![Kind::Int64]
    }

    open spec fn spec_values(&self) -> Seq<ScalarValue> {
        seq![
            ScalarValue::Int64(self.supplier_id),
        ]
    }

    fn schema() -> (r: Vec<Kind>) {
        vec![Kind::Int64]
    }

    fn to_scalars(&self) -> (r: Vec<Scalar>) {
        let r = vec![
            Scalar::Int64(self.supplier_id),
        ];
        assert(values_of(r@) =~= self.spec_values());
        r
    }

    fn from_scalars(v: Vec<Scalar>) -> (r: Self) {
        let ghost vals = values_of(v@);
        proof {
            assert(kind_of(vals[0]) == Kind::Int64);
        }
        let mut v = v;
        let supplier_id = pop_int64(&mut v);
        let r = DeleteSupplierRequest { supplier_id };
        assert(r.spec_values() =~= vals);
        r
    }

    proof fn lemma_schema(&self) {
        let vals = self.spec_values();
        let schema = Self::spec_schema();
        assert(vals.len() == 1 && schema.len() == 1);
        assert forall|i: int| 0 <= i < vals.len() implies #[trigger] kind_of(vals[i]) == schema[i] by {
            assert(i == 0);
        }
    }
}

impl Default for DeleteSupplierRequest {
    fn default() -> (r: Self)
        ensures
            r.spec_values() == defaults(Self::spec_schema()),
    {
        let r = DeleteSupplierRequest { supplier_id: 0 };
        assert(r.spec_values() =~= defaults(Self::spec_schema()));
        r
    }
}

#[derive(Clone, Debug)]
pub struct SupplierResponse {
    pub supplier_id: i64,
    pub name: String,
    pub contact_info: String,
    pub address: String,
}

impl ProtoMessage for SupplierResponse {
    open spec fn spec_schema() -> Seq<Kind> {
        seq![Kind::Int64, Kind::Str, Kind::Str, Kind::Str]
    }

    open spec fn spec_values(&self) -> Seq<ScalarValue> {
        seq![
            ScalarValue::Int64(self.supplier_id),
            ScalarValue::Str(self.name@),
            ScalarValue::Str(self.contact_info@),
            ScalarValue::Str(self.address@),
        ]
    }

    fn schema() -> (r: Vec<Kind>) {
        vec![Kind::Int64, Kind::Str, Kind::Str, Kind::Str]
    }

    fn to_scalars(&self) -> (r: Vec<Scalar>) {
        let r = vec![
            Scalar::Int64(self.supplier_id),
            Scalar::Str(self.name.clone()),
            Scalar::Str(self.contact_info.clone()),
            Scalar::Str(self.address.clone()),
        ];
        assert(values_of(r@) =~= self.spec_values());
        r
    }

    fn from_scalars(v: Vec<Scalar>) -> (r: Self) {
        let ghost vals = values_of(v@);
        proof {
            assert(kind_of(vals[0]) == Kind::Int64);
            assert(kind_of(vals[1]) == Kind::Str);
            assert(kind_of(vals[2]) == Kind::Str);
            assert(kind_of(vals[3]) == Kind::Str);
        }
        let mut v = v;
        let address = pop_str(&mut v);
        let contact_info = pop_str(&mut v);
        let name = pop_str(&mut v);
        let supplier_id = pop_int64(&mut v);
        let r = SupplierResponse { supplier_id, name, contact_info, address };
        assert(r.spec_values() =~= vals);
        r
    }

    proof fn lemma_schema(&self) {
        let vals = self.spec_values();
        let schema = Self::spec_schema();
        assert(vals.len() == 4 && schema.len() == 4);
        assert forall|i: int| 0 <= i < vals.len() implies #[trigger] kind_of(vals[i]) == schema[i] by {
            if i == 0 {} else if i == 1 {} else if i == 2 {} else {}
        }
    }
}

impl Default for SupplierResponse {
    fn default() -> (r: Self)
        ensures
            r.spec_values() == defaults(Self::spec_schema()),
    {
        let r = SupplierResponse { supplier_id: 0, name: String::new(), contact_info: String::new(), address: String::new() };
        assert(r.spec_values() =~= defaults(Self::spec_schema()));
        r
    }
}

#[derive(Clone, Debug)]
pub struct SuppliersResponse {
    pub items: Vec<SupplierResponse>,
}

impl ProtoList for SuppliersResponse {
    type Item = SupplierResponse;

    open spec fn spec_items(&self) -> Seq<SupplierResponse> {
        self.items@
    }

    fn items(&self) -> (r: &Vec<SupplierResponse>) {
        &self.items
    }

    fn from_items(items: Vec<SupplierResponse>) -> (r: Self) {
        SuppliersResponse { items }
    }
}

impl Default for SuppliersResponse {
    fn default() -> (r: Self)
        ensures
            r.spec_items() == Seq::<SupplierResponse>::empty(),
    {
        SuppliersResponse { items: Vec::new() }
    }
}

#[derive(Clone, Debug)]
pub struct CreateInventoryItemRequest {
    pub product_id: i64,
    pub quantity_available: i64,
    pub reorder_level: i64,
    pub supplier_id: i64,
}

impl ProtoMessage for CreateInventoryItemRequest {
    open spec fn spec_schema() -> Seq<Kind> {
        seq![Kind::Int64, Kind::Int64, Kind::Int64, Kind::Int64]
    }

    open spec fn spec_values(&self) -> Seq<ScalarValue> {
        seq![
            ScalarValue::Int64(self.product_id),
            ScalarValue::Int64(self.quantity_available),
            ScalarValue::Int64(self.reorder_level),
            ScalarValue::Int64(self.supplier_id),
        ]
    }

    fn schema() -> (r: Vec<Kind>) {
        vec![Kind::Int64, Kind::Int64, Kind::Int64, Kind::Int64]
    }

    fn to_scalars(&self) -> (r: Vec<Scalar>) {
        let r = vec![
            Scalar::Int64(self.product_id),
            Scalar::Int64(self.quantity_available),
            Scalar::Int64(self.reorder_level),
            Scalar::Int64(self.supplier_id),
        ];
        assert(values_of(r@) =~= self.spec_values());
        r
    }

    fn from_scalars(v: Vec<Scalar>) -> (r: Self) {
        let ghost vals = values_of(v@);
        proof {
            assert(kind_of(vals[0]) == Kind::Int64);
            assert(kind_of(vals[1]) == Kind::Int64);
            assert(kind_of(vals[2]) == Kind::Int64);
            assert(kind_of(vals[3]) == Kind::Int64);
        }
        let mut v = v;
        let supplier_id = pop_int64(&mut v);
        let reorder_level = pop_int64(&mut v);
        let quantity_available = pop_int64(&mut v);
        let product_id = pop_int64(&mut v);
        let r = CreateInventoryItemRequest { product_id, quantity_available, reorder_level, supplier_id };
        assert(r.spec_values() =~= vals);
        r
    }

    proof fn lemma_schema(&self) {
        let vals = self.spec_values();
        let schema = Self::spec_schema();
        assert(vals.len() == 4 && schema.len() == 4);
        assert forall|i: int| 0 <= i < vals.len() implies #[trigger] kind_of(vals[i]) == schema[i] by {
            if i == 0 {} else if i == 1 {} else if i == 2 {} else {}
        }
    }
}

impl Default for CreateInventoryItemRequest {
    fn default() -> (r: Self)
        ensures
            r.spec_values() == defaults(Self::spec_schema()),
    {
        let r = CreateInventoryItemRequest { product_id: 0, quantity_available: 0, reorder_level: 0, supplier_id: 0 };
        assert(r.spec_values() =~= defaults(Self::spec_schema()));
        r
    }
}

#[derive(Clone, Debug)]
pub struct GetInventoryItemRequest {
    pub inventory_id: i64,
}

impl ProtoMessage for GetInventoryItemRequest {
    open spec fn spec_schema() -> Seq<Kind> {
        seq![Kind::Int64]
    }

    open spec fn spec_values(&self) -> Seq<ScalarValue> {
        seq![
            ScalarValue::Int64(self.inventory_id),
        ]
    }

    fn schema() -> (r: Vec<Kind>) {
        vec![Kind::Int64]
    }

    fn to_scalars(&self) -> (r: Vec<Scalar>) {
        let r = vec![
            Scalar::Int64(self.inventory_id),
        ];
        assert(values_of(r@) =~= self.spec_values());
        r
    }

    fn from_scalars(v: Vec<Scalar>) -> (r: Self) {
        let ghost vals = values_of(v@);
        proof {
            assert(kind_of(vals[0]) == Kind::Int64);
        }
        let mut v = v;
        let inventory_id = pop_int64(&mut v);
        let r = GetInventoryItemRequest { inventory_id };
        assert(r.spec_values() =~= vals);
        r
    }

    proof fn lemma_schema(&self) {
        let vals = self.spec_values();
        let schema = Self::spec_schema();
        assert(vals.len() == 1 && schema.len() == 1);
        assert forall|i: int| 0 <= i < vals.len() implies #[trigger] kind_of(vals[i]) == schema[i] by {
            assert(i == 0);
        }
    }
}

impl Default for GetInventoryItemRequest {
    fn default() -> (r: Self)
        ensures
            r.spec_values() == defaults(Self::spec_schema()),
    {
        let r = GetInventoryItemRequest { inventory_id: 0 };
        assert(r.spec_values() =~= defaults(Self::spec_schema()));
        r
    }
}

#[derive(Clone, Debug)]
pub struct UpdateInventoryItemRequest {
    pub inventory_id: i64,
    pub product_id: Option<i64>,
    pub quantity_available: Option<i64>,
    pub reorder_level: Option<i64>,
    pub supplier_id: Option<i64>,
}

impl ProtoMessage for UpdateInventoryItemRequest {
    open spec fn spec_schema() -> Seq<Kind> {
        seq![Kind::Int64, Kind::OptInt64, Kind::OptInt64, Kind::OptInt64, Kind::OptInt64]
    }

    open spec fn spec_values(&self) -> Seq<ScalarValue> {
        seq![
            ScalarValue::Int64(self.inventory_id),
            ScalarValue::OptInt64(self.product_id),
            ScalarValue::OptInt64(self.quantity_available),
            ScalarValue::OptInt64(self.reorder_level),
            ScalarValue::OptInt64(self.supplier_id),
        ]
    }

    fn schema() -> (r: Vec<Kind>) {
        vec![Kind::Int64, Kind::OptInt64, Kind::OptInt64, Kind::OptInt64, Kind::OptInt64]
    }

    fn to_scalars(&self) -> (r: Vec<Scalar>) {
        let r = vec![
            Scalar::Int64(self.inventory_id),
            Scalar::OptInt64(self.product_id),
            Scalar::OptInt64(self.quantity_available),
            Scalar::OptInt64(self.reorder_level),
            Scalar::OptInt64(self.supplier_id),
        ];
        assert(values_of(r@) =~= self.spec_values());
        r
    }

    fn from_scalars(v: Vec<Scalar>) -> (r: Self) {
        let ghost vals = values_of(v@);
        proof {
            assert(kind_of(vals[0]) == Kind::Int64);
            assert(kind_of(vals[1]) == Kind::OptInt64);
            assert(kind_of(vals[2]) == Kind::OptInt64);
            assert(kind_of(vals[3]) == Kind::OptInt64);
            assert(kind_of(vals[4]) == Kind::OptInt64);
        }
        let mut v = v;
        let supplier_id = pop_opt_int64(&mut v);
        let reorder_level = pop_opt_int64(&mut v);
        let quantity_available = pop_opt_int64(&mut v);
        let product_id = pop_opt_int64(&mut v);
        let inventory_id = pop_int64(&mut v);
        let r = UpdateInventoryItemRequest { inventory_id, product_id, quantity_available, reorder_level, supplier_id };
        assert(r.spec_values() =~= vals);
        r
    }

    proof fn lemma_schema(&self) {
        let vals = self.spec_values();
        let schema = Self::spec_schema();
        assert(vals.len() == 5 && schema.len() == 5);
        assert forall|i: int| 0 <= i < vals.len() implies #[trigger] kind_of(vals[i]) == schema[i] by {
            if i == 0 {} else if i == 1 {} else if i == 2 {} else if i == 3 {} else {}
        }
    }
}

impl Default for UpdateInventoryItemRequest {
    fn default() -> (r: Self)
        ensures
            r.spec_values() == defaults(Self::spec_schema()),
    {
        let r = UpdateInventoryItemRequest { inventory_id: 0, product_id: None, quantity_available: None, reorder_level: None, supplier_id: None };
        assert(r.spec_values() =~= defaults(Self::spec_schema()));
        r
    }
}

#[derive(Clone, Debug)]
pub struct DeleteInventoryItemRequest {
    pub inventory_id: i64,
}

impl ProtoMessage for DeleteInventoryItemRequest {
    open spec fn spec_schema() -> Seq<Kind> {
        seq![Kind::Int64]
    }

    open spec fn spec_values(&self) -> Seq<ScalarValue> {
        seq![
            ScalarValue::Int64(self.inventory_id),
        ]
    }

    fn schema() -> (r: Vec<Kind>) {
        vec![Kind::Int64]
    }

    fn to_scalars(&self) -> (r: Vec<Scalar>) {
        let r = vec![
            Scalar::Int64(self.inventory_id),
        ];
        assert(values_of(r@) =~= self.spec_values());
        r
    }

    fn from_scalars(v: Vec<Scalar>) -> (r: Self) {
        let ghost vals = values_of(v@);
        proof {
            assert(kind_of(vals[0]) == Kind::Int64);
        }
        let mut v = v;
        let inventory_id = pop_int64(&mut v);
        let r = DeleteInventoryItemRequest { inventory_id };
        assert(r.spec_values() =~= vals);
        r
    }

    proof fn lemma_schema(&self) {
        let vals = self.spec_values();
        let schema = Self::spec_schema();
        assert(vals.len() == 1 && schema.len() == 1);
        assert forall|i: int| 0 <= i < vals.len() implies #[trigger] kind_of(vals[i]) == schema[i] by {
            assert(i == 0);
        }
    }
}

impl Default for DeleteInventoryItemRequest {
    fn default() -> (r: Self)
        ensures
            r.spec_values() == defaults(Self::spec_schema()),
    {
        let r = DeleteInventoryItemRequest { inventory_id: 0 };
        assert(r.spec_values() =~= defaults(Self::spec_schema()));
        r
    }
}

#[derive(Clone, Debug)]
pub struct InventoryItemResponse {
    pub inventory_id: i64,
    pub product_id: i64,
    pub quantity_available: i64,
    pub reorder_level: i64,
    pub supplier_id: i64,
}

impl ProtoMessage for InventoryItemResponse {
    open spec fn spec_schema() -> Seq<Kind> {
        seq![Kind::Int64, Kind::Int64, Kind::Int64, Kind::Int64, Kind::Int64]
    }

    open spec fn spec_values(&self) -> Seq<ScalarValue> {
        seq![
            ScalarValue::Int64(self.inventory_id),
            ScalarValue::Int64(self.product_id),
            ScalarValue::Int64(self.quantity_available),
            ScalarValue::Int64(self.reorder_level),
            ScalarValue::Int64(self.supplier_id),
        ]
    }

    fn schema() -> (r: Vec<Kind>) {
        vec![Kind::Int64, Kind::Int64, Kind::Int64, Kind::Int64, Kind::Int64]
    }

    fn to_scalars(&self) -> (r: Vec<Scalar>) {
        let r = vec![
            Scalar::Int64(self.inventory_id),
            Scalar::Int64(self.product_id),
            Scalar::Int64(self.quantity_available),
            Scalar::Int64(self.reorder_level),
            Scalar::Int64(self.supplier_id),
        ];
        assert(values_of(r@) =~= self.spec_values());
        r
    }

    fn from_scalars(v: Vec<Scalar>) -> (r: Self) {
        let ghost vals = values_of(v@);
        proof {
            assert(kind_of(vals[0]) == Kind::Int64);
            assert(kind_of(vals[1]) == Kind::Int64);
            assert(kind_of(vals[2]) == Kind::Int64);
            assert(kind_of(vals[3]) == Kind::Int64);
            assert(kind_of(vals[4]) == Kind::Int64);
        }
        let mut v = v;
        let supplier_id = pop_int64(&mut v);
        let reorder_level = pop_int64(&mut v);
        let quantity_available = pop_int64(&mut v);
        let product_id = pop_int64(&mut v);
        let inventory_id = pop_int64(&mut v);
        let r = InventoryItemResponse { inventory_id, product_id, quantity_available, reorder_level, supplier_id };
        assert(r.spec_values() =~= vals);
        r
    }

    proof fn lemma_schema(&self) {
        let vals = self.spec_values();
        let schema = Self::spec_schema();
        assert(vals.len() == 5 && schema.len() == 5);
        assert forall|i: int| 0 <= i < vals.len() implies #[trigger] kind_of(vals[i]) == schema[i] by {
            if i == 0 {} else if i == 1 {} else if i == 2 {} else if i == 3 {} else {}
        }
    }
}

impl Default for InventoryItemResponse {
    fn default() -> (r: Self)
        ensures
            r.spec_values() == defaults(Self::spec_schema()),
    {
        let r = InventoryItemResponse { inventory_id: 0, product_id: 0, quantity_available: 0, reorder_level: 0, supplier_id: 0 };
        assert(r.spec_values() =~= defaults(Self::spec_schema()));
        r
    }
}

#[derive(Clone, Debug)]
pub struct InventoryItemsResponse {
    pub items: Vec<InventoryItemResponse>,
}

impl ProtoList for InventoryItemsResponse {
    type Item = InventoryItemResponse;

    open spec fn spec_items(&self) -> Seq<InventoryItemResponse> {
        self.items@
    }

    fn items(&self) -> (r: &Vec<InventoryItemResponse>) {
        &self.items
    }

    fn from_items(items: Vec<InventoryItemResponse>) -> (r: Self) {
        InventoryItemsResponse { items }
    }
}

impl Default for InventoryItemsResponse {
    fn default() -> (r: Self)
        ensures
            r.spec_items() == Seq::<InventoryItemResponse>::empty(),
    {
        InventoryItemsResponse { items: Vec::new() }
    }
}

#[derive(Clone, Debug)]
pub struct CreateWishlistItemRequest {
    pub user_id: i64,
    pub product_id: i64,
    pub date_added: String,
}

impl ProtoMessage for CreateWishlistItemRequest {
    open spec fn spec_schema() -> Seq<Kind> {
        seq![Kind::Int64, Kind::Int64, Kind::Str]
    }

    open spec fn spec_values(&self) -> Seq<ScalarValue> {
        seq![
            ScalarValue::Int64(self.user_id),
            ScalarValue::Int64(self.product_id),
            ScalarValue::Str(self.date_added@),
        ]
    }

    fn schema() -> (r: Vec<Kind>) {
        vec![Kind::Int64, Kind::Int64, Kind::Str]
    }

    fn to_scalars(&self) -> (r: Vec<Scalar>) {
        let r = vec![
            Scalar::Int64(self.user_id),
            Scalar::Int64(self.product_id),
            Scalar::Str(self.date_added.clone()),
        ];
        assert(values_of(r@) =~= self.spec_values());
        r
    }

    fn from_scalars(v: Vec<Scalar>) -> (r: Self) {
        let ghost vals = values_of(v@);
        proof {
            assert(kind_of(vals[0]) == Kind::Int64);
            assert(kind_of(vals[1]) == Kind::Int64);
            assert(kind_of(vals[2]) == Kind::Str);
        }
        let mut v = v;
        let date_added = pop_str(&mut v);
        let product_id = pop_int64(&mut v);
        let user_id = pop_int64(&mut v);
        let r = CreateWishlistItemRequest { user_id, product_id, date_added };
        assert(r.spec_values() =~= vals);
        r
    }

    proof fn lemma_schema(&self) {
        let vals = self.spec_values();
        let schema = Self::spec_schema();
        assert(vals.len() == 3 && schema.len() == 3);
        assert forall|i: int| 0 <= i < vals.len() implies #[trigger] kind_of(vals[i]) == schema[i] by {
            if i == 0 {} else if i == 1 {} else {}
        }
    }
}

impl Default for CreateWishlistItemRequest {
    fn default() -> (r: Self)
        ensures
            r.spec_values() == defaults(Self::spec_schema()),
    {
        let r = CreateWishlistItemRequest { user_id: 0, product_id: 0, date_added: String::new() };
        assert(r.spec_values() =~= defaults(Self::spec_schema()));
        r
    }
}

#[derive(Clone, Debug)]
pub struct GetWishlistItemRequest {
    pub wishlist_id: i64,
}

impl ProtoMessage for GetWishlistItemRequest {
    open spec fn spec_schema() -> Seq<Kind> {
        seq![Kind::Int64]
    }

    open spec fn spec_values(&self) -> Seq<ScalarValue> {
        seq![
            ScalarValue::Int64(self.wishlist_id),
        ]
    }

    fn schema() -> (r: Vec<Kind>) {
        vec![Kind::Int64]
    }

    fn to_scalars(&self) -> (r: Vec<Scalar>) {
        let r = vec![
            Scalar::Int64(self.wishlist_id),
        ];
        assert(values_of(r@) =~= self.spec_values());
        r
    }

    fn from_scalars(v: Vec<Scalar>) -> (r: Self) {
        let ghost vals = values_of(v@);
        proof {
            assert(kind_of(vals[0]) == Kind::Int64);
        }
        let mut v = v;
        let wishlist_id = pop_int64(&mut v);
        let r = GetWishlistItemRequest { wishlist_id };
        assert(r.spec_values() =~= vals);
        r
    }

    proof fn lemma_schema(&self) {
        let vals = self.spec_values();
        let schema = Self::spec_schema();
        assert(vals.len() == 1 && schema.len() == 1);
        assert forall|i: int| 0 <= i < vals.len() implies #[trigger] kind_of(vals[i]) == schema[i] by {
            assert(i == 0);
        }
    }
}

impl Default for GetWishlistItemRequest {
    fn default() -> (r: Self)
        ensures
            r.spec_values() == defaults(Self::spec_schema()),
    {
        let r = GetWishlistItemRequest { wishlist_id: 0 };
        assert(r.spec_values() =~= defaults(Self::spec_schema()));
        r
    }
}

#[derive(Clone, Debug)]
pub struct UpdateWishlistItemRequest {
    pub wishlist_id: i64,
    pub user_id: Option<i64>,
    pub product_id: Option<i64>,
    pub date_added: Option<String>,
}

impl ProtoMessage for UpdateWishlistItemRequest {
    open spec fn spec_schema() -> Seq<Kind> {
        seq![Kind::Int64, Kind::OptInt64, Kind::OptInt64, Kind::OptStr]
    }

    open spec fn spec_values(&self) -> Seq<ScalarValue> {
        seq![
            ScalarValue::Int64(self.wishlist_id),
            ScalarValue::OptInt64(self.user_id),
            ScalarValue::OptInt64(self.product_id),
            ScalarValue::OptStr(opt_chars(self.date_added)),
        ]
    }

    fn schema() -> (r: Vec<Kind>) {
        vec![Kind::Int64, Kind::OptInt64, Kind::OptInt64, Kind::OptStr]
    }

    fn to_scalars(&self) -> (r: Vec<Scalar>) {
        let r = vec![
            Scalar::Int64(self.wishlist_id),
            Scalar::OptInt64(self.user_id),
            Scalar::OptInt64(self.product_id),
            opt_str_scalar(&self.date_added),
        ];
        assert(values_of(r@) =~= self.spec_values());
        r
    }

    fn from_scalars(v: Vec<Scalar>) -> (r: Self) {
        let ghost vals = values_of(v@);
        proof {
            assert(kind_of(vals[0]) == Kind::Int64);
            assert(kind_of(vals[1]) == Kind::OptInt64);
            assert(kind_of(vals[2]) == Kind::OptInt64);
            assert(kind_of(vals[3]) == Kind::OptStr);
        }
        let mut v = v;
        let date_added = pop_opt_str(&mut v);
        let product_id = pop_opt_int64(&mut v);
        let user_id = pop_opt_int64(&mut v);
        let wishlist_id = pop_int64(&mut v);
        let r = UpdateWishlistItemRequest { wishlist_id, user_id, product_id, date_added };
        assert(r.spec_values() =~= vals);
        r
    }

    proof fn lemma_schema(&self) {
        let vals = self.spec_values();
        let schema = Self::spec_schema();
        assert(vals.len() == 4 && schema.len() == 4);
        assert forall|i: int| 0 <= i < vals.len() implies #[trigger] kind_of(vals[i]) == schema[i] by {
            if i == 0 {} else if i == 1 {} else if i == 2 {} else {}
        }
    }
}

impl Default for UpdateWishlistItemRequest {
    fn default() -> (r: Self)
        ensures
            r.spec_values() == defaults(Self::spec_schema()),
    {
        let r = UpdateWishlistItemRequest { wishlist_id: 0, user_id: None, product_id: None, date_added: None };
        assert(r.spec_values() =~= defaults(Self::spec_schema()));
        r
    }
}

#[derive(Clone, Debug)]
pub struct DeleteWishlistItemRequest {
    pub wishlist_id: i64,
}

impl ProtoMessage for DeleteWishlistItemRequest {
    open spec fn spec_schema() -> Seq<Kind> {
        seq![Kind::Int64]
    }

    open spec fn spec_values(&self) -> Seq<ScalarValue> {
        seq![
            ScalarValue::Int64(self.wishlist_id),
        ]
    }

    fn schema() -> (r: Vec<Kind>) {
        vec![Kind::Int64]
    }

    fn to_scalars(&self) -> (r: Vec<Scalar>) {
        let r = vec![
            Scalar::Int64(self.wishlist_id),
        ];
        assert(values_of(r@) =~= self.spec_values());
        r
    }

    fn from_scalars(v: Vec<Scalar>) -> (r: Self) {
        let ghost vals = values_of(v@);
        proof {
            assert(kind_of(vals[0]) == Kind::Int64);
        }
        let mut v = v;
        let wishlist_id = pop_int64(&mut v);
        let r = DeleteWishlistItemRequest { wishlist_id };
        assert(r.spec_values() =~= vals);
        r
    }

    proof fn lemma_schema(&self) {
        let vals = self.spec_values();
        let schema = Self::spec_schema();
        assert(vals.len() == 1 && schema.len() == 1);
        assert forall|i: int| 0 <= i < vals.len() implies #[trigger] kind_of(vals[i]) == schema[i] by {
            assert(i == 0);
        }
    }
}

impl Default for DeleteWishlistItemRequest {
    fn default() -> (r: Self)
        ensures
            r.spec_values() == defaults(Self::spec_schema()),
    {
        let r = DeleteWishlistItemRequest { wishlist_id: 0 };
        assert(r.spec_values() =~= defaults(Self::spec_schema()));
        r
    }
}

#[derive(Clone, Debug)]
pub struct WishlistItemResponse {
    pub wishlist_id: i64,
    pub user_id: i64,
    pub product_id: i64,
    pub date_added: String,
}

impl ProtoMessage for WishlistItemResponse {
    open spec fn spec_schema() -> Seq<Kind> {
        seq![Kind::Int64, Kind::Int64, Kind::Int64, Kind::Str]
    }

    open spec fn spec_values(&self) -> Seq<ScalarValue> {
        seq![
            ScalarValue::Int64(self.wishlist_id),
            ScalarValue::Int64(self.user_id),
            ScalarValue::Int64(self.product_id),
            ScalarValue::Str(self.date_added@),
        ]
    }

    fn schema() -> (r: Vec<Kind>) {
        vec![Kind::Int64, Kind::Int64, Kind::Int64, Kind::Str]
    }

    fn to_scalars(&self) -> (r: Vec<Scalar>) {
        let r = vec![
            Scalar::Int64(self.wishlist_id),
            Scalar::Int64(self.user_id),
            Scalar::Int64(self.product_id),
            Scalar::Str(self.date_added.clone()),
        ];
        assert(values_of(r@) =~= self.spec_values());
        r
    }

    fn from_scalars(v: Vec<Scalar>) -> (r: Self) {
        let ghost vals = values_of(v@);
        proof {
            assert(kind_of(vals[0]) == Kind::Int64);
            assert(kind_of(vals[1]) == Kind::Int64);
            assert(kind_of(vals[2]) == Kind::Int64);
            assert(kind_of(vals[3]) == Kind::Str);
        }
        let mut v = v;
        let date_added = pop_str(&mut v);
        let product_id = pop_int64(&mut v);
        let user_id = pop_int64(&mut v);
        let wishlist_id = pop_int64(&mut v);
        let r = WishlistItemResponse { wishlist_id, user_id, product_id, date_added };
        assert(r.spec_values() =~= vals);
        r
    }

    proof fn lemma_schema(&self) {
        let vals = self.spec_values();
        let schema = Self::spec_schema();
        assert(vals.len() == 4 && schema.len() == 4);
        assert forall|i: int| 0 <= i < vals.len() implies #[trigger] kind_of(vals[i]) == schema[i] by {
            if i == 0 {} else if i == 1 {} else if i == 2 {} else {}
        }
    }
}

impl Default for WishlistItemResponse {
    fn default() -> (r: Self)
        ensures
            r.spec_values() == defaults(Self::spec_schema()),
    {
        let r = WishlistItemResponse { wishlist_id: 0, user_id: 0, product_id: 0, date_added: String::new() };
        assert(r.spec_values() =~= defaults(Self::spec_schema()));
        r
    }
}

#[derive(Clone, Debug)]
pub struct WishlistItemsResponse {
    pub items: Vec<WishlistItemResponse>,
}

impl ProtoList for WishlistItemsResponse {
    type Item = WishlistItemResponse;

    open spec fn spec_items(&self) -> Seq<WishlistItemResponse> {
        self.items@
    }

    fn items(&self) -> (r: &Vec<WishlistItemResponse>) {
        &self.items
    }

    fn from_items(items: Vec<WishlistItemResponse>) -> (r: Self) {
        WishlistItemsResponse { items }
    }
}

impl Default for WishlistItemsResponse {
    fn default() -> (r: Self)
        ensures
            r.spec_items() == Seq::<WishlistItemResponse>::empty(),
    {
        WishlistItemsResponse { items: Vec::new() }
    }
}

#[derive(Clone, Debug)]
pub struct CreateProductAttributeRequest {
    pub product_id: i64,
    pub attribute_name: String,
    pub attribute_value: String,
}

impl ProtoMessage for CreateProductAttributeRequest {
    open spec fn spec_schema() -> Seq<Kind> {
        seq![Kind::Int64, Kind::Str, Kind::Str]
    }

    open spec fn spec_values(&self) -> Seq<ScalarValue> {
        seq![
            ScalarValue::Int64(self.product_id),
            ScalarValue::Str(self.attribute_name@),
            ScalarValue::Str(self.attribute_value@),
        ]
    }

    fn schema() -> (r: Vec<Kind>) {
        vec![Kind::Int64, Kind::Str, Kind::Str]
    }

    fn to_scalars(&self) -> (r: Vec<Scalar>) {
        let r = vec![
            Scalar::Int64(self.product_id),
            Scalar::Str(self.attribute_name.clone()),
            Scalar::Str(self.attribute_value.clone()),
        ];
        assert(values_of(r@) =~= self.spec_values());
        r
    }

    fn from_scalars(v: Vec<Scalar>) -> (r: Self) {
        let ghost vals = values_of(v@);
        proof {
            assert(kind_of(vals[0]) == Kind::Int64);
            assert(kind_of(vals[1]) == Kind::Str);
            assert(kind_of(vals[2]) == Kind::Str);
        }
        let mut v = v;
        let attribute_value = pop_str(&mut v);
        let attribute_name = pop_str(&mut v);
        let product_id = pop_int64(&mut v);
        let r = CreateProductAttributeRequest { product_id, attribute_name, attribute_value };
        assert(r.spec_values() =~= vals);
        r
    }

    proof fn lemma_schema(&self) {
        let vals = self.spec_values();
        let schema = Self::spec_schema();
        assert(vals.len() == 3 && schema.len() == 3);
        assert forall|i: int| 0 <= i < vals.len() implies #[trigger] kind_of(vals[i]) == schema[i] by {
            if i == 0 {} else if i == 1 {} else {}
        }
    }
}

impl Default for CreateProductAttributeRequest {
    fn default() -> (r: Self)
        ensures
            r.spec_values() == defaults(Self::spec_schema()),
    {
        let r = CreateProductAttributeRequest { product_id: 0, attribute_name: String::new(), attribute_value: String::new() };
        assert(r.spec_values() =~= defaults(Self::spec_schema()));
        r
    }
}

#[derive(Clone, Debug)]
pub struct GetProductAttributeRequest {
    pub attribute_id: i64,
}

impl ProtoMessage for GetProductAttributeRequest {
    open spec fn spec_schema() -> Seq<Kind> {
        seq![Kind::Int64]
    }

    open spec fn spec_values(&self) -> Seq<ScalarValue> {
        seq![
            ScalarValue::Int64(self.attribute_id),
        ]
    }

    fn schema() -> (r: Vec<Kind>) {
        vec![Kind::Int64]
    }

    fn to_scalars(&self) -> (r: Vec<Scalar>) {
        let r = vec![
            Scalar::Int64(self.attribute_id),
        ];
        assert(values_of(r@) =~= self.spec_values());
        r
    }

    fn from_scalars(v: Vec<Scalar>) -> (r: Self) {
        let ghost vals = values_of(v@);
        proof {
            assert(kind_of(vals[0]) == Kind::Int64);
        }
        let mut v = v;
        let attribute_id = pop_int64(&mut v);
        let r = GetProductAttributeRequest { attribute_id };
        assert(r.spec_values() =~= vals);
        r
    }

    proof fn lemma_schema(&self) {
        let vals = self.spec_values();
        let schema = Self::spec_schema();
        assert(vals.len() == 1 && schema.len() == 1);
        assert forall|i: int| 0 <= i < vals.len() implies #[trigger] kind_of(vals[i]) == schema[i] by {
            assert(i == 0);
        }
    }
}

impl Default for GetProductAttributeRequest {
    fn default() -> (r: Self)
        ensures
            r.spec_values() == defaults(Self::spec_schema()),
    {
        let r = GetProductAttributeRequest { attribute_id: 0 };
        assert(r.spec_values() =~= defaults(Self::spec_schema()));
        r
    }
}

#[derive(Clone, Debug)]
pub struct UpdateProductAttributeRequest {
    pub attribute_id: i64,
    pub product_id: Option<i64>,
    pub attribute_name: Option<String>,
    pub attribute_value: Option<String>,
}

impl ProtoMessage for UpdateProductAttributeRequest {
    open spec fn spec_schema() -> Seq<Kind> {
        seq![Kind::Int64, Kind::OptInt64, Kind::OptStr, Kind::OptStr]
    }

    open spec fn spec_values(&self) -> Seq<ScalarValue> {
        seq![
            ScalarValue::Int64(self.attribute_id),
            ScalarValue::OptInt64(self.product_id),
            ScalarValue::OptStr(opt_chars(self.attribute_name)),
            ScalarValue::OptStr(opt_chars(self.attribute_value)),
        ]
    }

    fn schema() -> (r: Vec<Kind>) {
        vec![Kind::Int64, Kind::OptInt64, Kind::OptStr, Kind::OptStr]
    }

    fn to_scalars(&self) -> (r: Vec<Scalar>) {
        let r = vec![
            Scalar::Int64(self.attribute_id),
            Scalar::OptInt64(self.product_id),
            opt_str_scalar(&self.attribute_name),
            opt_str_scalar(&self.attribute_value),
        ];
        assert(values_of(r@) =~= self.spec_values());
        r
    }

    fn from_scalars(v: Vec<Scalar>) -> (r: Self) {
        let ghost vals = values_of(v@);
        proof {
            assert(kind_of(vals[0]) == Kind::Int64);
            assert(kind_of(vals[1]) == Kind::OptInt64);
            assert(kind_of(vals[2]) == Kind::OptStr);
            assert(kind_of(vals[3]) == Kind::OptStr);
        }
        let mut v = v;
        let attribute_value = pop_opt_str(&mut v);
        let attribute_name = pop_opt_str(&mut v);
        let product_id = pop_opt_int64(&mut v);
        let attribute_id = pop_int64(&mut v);
        let r = UpdateProductAttributeRequest { attribute_id, product_id, attribute_name, attribute_value };
        assert(r.spec_values() =~= vals);
        r
    }

    proof fn lemma_schema(&self) {
        let vals = self.spec_values();
        let schema = Self::spec_schema();
        assert(vals.len() == 4 && schema.len() == 4);
        assert forall|i: int| 0 <= i < vals.len() implies #[trigger] kind_of(vals[i]) == schema[i] by {
            if i == 0 {} else if i == 1 {} else if i == 2 {} else {}
        }
    }
}

impl Default for UpdateProductAttributeRequest {
    fn default() -> (r: Self)
        ensures
            r.spec_values() == defaults(Self::spec_schema()),
    {
        let r = UpdateProductAttributeRequest { attribute_id: 0, product_id: None, attribute_name: None, attribute_value: None };
        assert(r.spec_values() =~= defaults(Self::spec_schema()));
        r
    }
}

#[derive(Clone, Debug)]
pub struct DeleteProductAttributeRequest {
    pub attribute_id: i64,
}

impl ProtoMessage for DeleteProductAttributeRequest {
    open spec fn spec_schema() -> Seq<Kind> {
        seq![Kind::Int64]
    }

    open spec fn spec_values(&self) -> Seq<ScalarValue> {
        seq![
            ScalarValue::Int64(self.attribute_id),
        ]
    }

    fn schema() -> (r: Vec<Kind>) {
        vec![Kind::Int64]
    }

    fn to_scalars(&self) -> (r: Vec<Scalar>) {
        let r = vec![
            Scalar::Int64(self.attribute_id),
        ];
        assert(values_of(r@) =~= self.spec_values());
        r
    }

    fn from_scalars(v: Vec<Scalar>) -> (r: Self) {
        let ghost vals = values_of(v@);
        proof {
            assert(kind_of(vals[0]) == Kind::Int64);
        }
        let mut v = v;
        let attribute_id = pop_int64(&mut v);
        let r = DeleteProductAttributeRequest { attribute_id };
        assert(r.spec_values() =~= vals);
        r
    }

    proof fn lemma_schema(&self) {
        let vals = self.spec_values();
        let schema = Self::spec_schema();
        assert(vals.len() == 1 && schema.len() == 1);
        assert forall|i: int| 0 <= i < vals.len() implies #[trigger] kind_of(vals[i]) == schema[i] by {
            assert(i == 0);
        }
    }
}

impl Default for DeleteProductAttributeRequest {
    fn default() -> (r: Self)
        ensures
            r.spec_values() == defaults(Self::spec_schema()),
    {
        let r = DeleteProductAttributeRequest { attribute_id: 0 };
        assert(r.spec_values() =~= defaults(Self::spec_schema()));
        r
    }
}

#[derive(Clone, Debug)]
pub struct ProductAttributeResponse {
    pub attribute_id: i64,
    pub product_id: i64,
    pub attribute_name: String,
    pub attribute_value: String,
}

impl ProtoMessage for ProductAttributeResponse {
    open spec fn spec_schema() -> Seq<Kind> {
        seq![Kind::Int64, Kind::Int64, Kind::Str, Kind::Str]
    }

    open spec fn spec_values(&self) -> Seq<ScalarValue> {
        seq![
            ScalarValue::Int64(self.attribute_id),
            ScalarValue::Int64(self.product_id),
            ScalarValue::Str(self.attribute_name@),
            ScalarValue::Str(self.attribute_value@),
        ]
    }

    fn schema() -> (r: Vec<Kind>) {
        vec![Kind::Int64, Kind::Int64, Kind::Str, Kind::Str]
    }

    fn to_scalars(&self) -> (r: Vec<Scalar>) {
        let r = vec![
            Scalar::Int64(self.attribute_id),
            Scalar::Int64(self.product_id),
            Scalar::Str(self.attribute_name.clone()),
            Scalar::Str(self.attribute_value.clone()),
        ];
        assert(values_of(r@) =~= self.spec_values());
        r
    }

    fn from_scalars(v: Vec<Scalar>) -> (r: Self) {
        let ghost vals = values_of(v@);
        proof {
            assert(kind_of(vals[0]) == Kind::Int64);
            assert(kind_of(vals[1]) == Kind::Int64);
            assert(kind_of(vals[2]) == Kind::Str);
            assert(kind_of(vals[3]) == Kind::Str);
        }
        let mut v = v;
        let attribute_value = pop_str(&mut v);
        let attribute_name = pop_str(&mut v);
        let product_id = pop_int64(&mut v);
        let attribute_id = pop_int64(&mut v);
        let r = ProductAttributeResponse { attribute_id, product_id, attribute_name, attribute_value };
        assert(r.spec_values() =~= vals);
        r
    }

    proof fn lemma_schema(&self) {
        let vals = self.spec_values();
        let schema = Self::spec_schema();
        assert(vals.len() == 4 && schema.len() == 4);
        assert forall|i: int| 0 <= i < vals.len() implies #[trigger] kind_of(vals[i]) == schema[i] by {
            if i == 0 {} else if i == 1 {} else if i == 2 {} else {}
        }
    }
}

impl Default for ProductAttributeResponse {
    fn default() -> (r: Self)
        ensures
            r.spec_values() == defaults(Self::spec_schema()),
    {
        let r = ProductAttributeResponse { attribute_id: 0, product_id: 0, attribute_name: String::new(), attribute_value: String::new() };
        assert(r.spec_values() =~= defaults(Self::spec_schema()));
        r
    }
}

#[derive(Clone, Debug)]
pub struct ProductAttributesResponse {
    pub items: Vec<ProductAttributeResponse>,
}

impl ProtoList for ProductAttributesResponse {
    type Item = ProductAttributeResponse;

    open spec fn spec_items(&self) -> Seq<ProductAttributeResponse> {
        self.items@
    }

    fn items(&self) -> (r: &Vec<ProductAttributeResponse>) {
        &self.items
    }

    fn from_items(items: Vec<ProductAttributeResponse>) -> (r: Self) {
        ProductAttributesResponse { items }
    }
}

impl Default for ProductAttributesResponse {
    fn default() -> (r: Self)
        ensures
            r.spec_items() == Seq::<ProductAttributeResponse>::empty(),
    {
        ProductAttributesResponse { items: Vec::new() }
    }
}

#[derive(Clone, Debug)]
pub struct CreateDiscountRequest {
    pub product_id: i64,
    /// IEEE 754 bit pattern.
    pub discount_percentage: u64,
    pub start_date: String,
    pub end_date: String,
}

impl ProtoMessage for CreateDiscountRequest {
    open spec fn spec_schema() -> Seq<Kind> {
        seq![Kind::Int64, Kind::Double, Kind::Str, Kind::Str]
    }

    open spec fn spec_values(&self) -> Seq<ScalarValue> {
        seq![
            ScalarValue::Int64(self.product_id),
            ScalarValue::Double(self.discount_percentage),
            ScalarValue::Str(self.start_date@),
            ScalarValue::Str(self.end_date@),
        ]
    }

    fn schema() -> (r: Vec<Kind>) {
        vec![Kind::Int64, Kind::Double, Kind::Str, Kind::Str]
    }

    fn to_scalars(&self) -> (r: Vec<Scalar>) {
        let r = vec![
            Scalar::Int64(self.product_id),
            Scalar::Double(self.discount_percentage),
            Scalar::Str(self.start_date.clone()),
            Scalar::Str(self.end_date.clone()),
        ];
        assert(values_of(r@) =~= self.spec_values());
        r
    }

    fn from_scalars(v: Vec<Scalar>) -> (r: Self) {
        let ghost vals = values_of(v@);
        proof {
            assert(kind_of(vals[0]) == Kind::Int64);
            assert(kind_of(vals[1]) == Kind::Double);
            assert(kind_of(vals[2]) == Kind::Str);
            assert(kind_of(vals[3]) == Kind::Str);
        }
        let mut v = v;
        let end_date = pop_str(&mut v);
        let start_date = pop_str(&mut v);
        let discount_percentage = pop_double(&mut v);
        let product_id = pop_int64(&mut v);
        let r = CreateDiscountRequest { product_id, discount_percentage, start_date, end_date };
        assert(r.spec_values() =~= vals);
        r
    }

    proof fn lemma_schema(&self) {
        let vals = self.spec_values();
        let schema = Self::spec_schema();
        assert(vals.len() == 4 && schema.len() == 4);
        assert forall|i: int| 0 <= i < vals.len() implies #[trigger] kind_of(vals[i]) == schema[i] by {
            if i == 0 {} else if i == 1 {} else if i == 2 {} else {}
        }
    }
}

impl Default for CreateDiscountRequest {
    fn default() -> (r: Self)
        ensures
            r.spec_values() == defaults(Self::spec_schema()),
    {
        let r = CreateDiscountRequest { product_id: 0, discount_percentage: 0, start_date: String::new(), end_date: String::new() };
        assert(r.spec_values() =~= defaults(Self::spec_schema()));
        r
    }
}

#[derive(Clone, Debug)]
pub struct GetDiscountRequest {
    pub discount_id: i64,
}

impl ProtoMessage for GetDiscountRequest {
    open spec fn spec_schema() -> Seq<Kind> {
        seq![Kind::Int64]
    }

    open spec fn spec_values(&self) -> Seq<ScalarValue> {
        seq![
            ScalarValue::Int64(self.discount_id),
        ]
    }

    fn schema() -> (r: Vec<Kind>) {
        vec![Kind::Int64]
    }

    fn to_scalars(&self) -> (r: Vec<Scalar>) {
        let r = vec![
            Scalar::Int64(self.discount_id),
        ];
        assert(values_of(r@) =~= self.spec_values());
        r
    }

    fn from_scalars(v: Vec<Scalar>) -> (r: Self) {
        let ghost vals = values_of(v@);
        proof {
            assert(kind_of(vals[0]) == Kind::Int64);
        }
        let mut v = v;
        let discount_id = pop_int64(&mut v);
        let r = GetDiscountRequest { discount_id };
        assert(r.spec_values() =~= vals);
        r
    }

    proof fn lemma_schema(&self) {
        let vals = self.spec_values();
        let schema = Self::spec_schema();
        assert(vals.len() == 1 && schema.len() == 1);
        assert forall|i: int| 0 <= i < vals.len() implies #[trigger] kind_of(vals[i]) == schema[i] by {
            assert(i == 0);
        }
    }
}

impl Default for GetDiscountRequest {
    fn default() -> (r: Self)
        ensures
            r.spec_values() == defaults(Self::spec_schema()),
    {
        let r = GetDiscountRequest { discount_id: 0 };
        assert(r.spec_values() =~= defaults(Self::spec_schema()));
        r
    }
}

#[derive(Clone, Debug)]
pub struct UpdateDiscountRequest {
    pub discount_id: i64,
    pub product_id: Option<i64>,
    /// IEEE 754 bit pattern.
    pub discount_percentage: Option<u64>,
    pub start_date: Option<String>,
    pub end_date: Option<String>,
}

impl ProtoMessage for UpdateDiscountRequest {
    open spec fn spec_schema() -> Seq<Kind> {
        seq![Kind::Int64, Kind::OptInt64, Kind::OptDouble, Kind::OptStr, Kind::OptStr]
    }

    open spec fn spec_values(&self) -> Seq<ScalarValue> {
        seq![
            ScalarValue::Int64(self.discount_id),
            ScalarValue::OptInt64(self.product_id),
            ScalarValue::OptDouble(self.discount_percentage),
            ScalarValue::OptStr(opt_chars(self.start_date)),
            ScalarValue::OptStr(opt_chars(self.end_date)),
        ]
    }

    fn schema() -> (r: Vec<Kind>) {
        vec![Kind::Int64, Kind::OptInt64, Kind::OptDouble, Kind::OptStr, Kind::OptStr]
    }

    fn to_scalars(&self) -> (r: Vec<Scalar>) {
        let r = vec![
            Scalar::Int64(self.discount_id),
            Scalar::OptInt64(self.product_id),
            Scalar::OptDouble(self.discount_percentage),
            opt_str_scalar(&self.start_date),
            opt_str_scalar(&self.end_date),
        ];
        assert(values_of(r@) =~= self.spec_values());
        r
    }

    fn from_scalars(v: Vec<Scalar>) -> (r: Self) {
        let ghost vals = values_of(v@);
        proof {
            assert(kind_of(vals[0]) == Kind::Int64);
            assert(kind_of(vals[1]) == Kind::OptInt64);
            assert(kind_of(vals[2]) == Kind::OptDouble);
            assert(kind_of(vals[3]) == Kind::OptStr);
            assert(kind_of(vals[4]) == Kind::OptStr);
        }
        let mut v = v;
        let end_date = pop_opt_str(&mut v);
        let start_date = pop_opt_str(&mut v);
        let discount_percentage = pop_opt_double(&mut v);
        let product_id = pop_opt_int64(&mut v);
        let discount_id = pop_int64(&mut v);
        let r = UpdateDiscountRequest { discount_id, product_id, discount_percentage, start_date, end_date };
        assert(r.spec_values() =~= vals);
        r
    }

    proof fn lemma_schema(&self) {
        let vals = self.spec_values();
        let schema = Self::spec_schema();
        assert(vals.len() == 5 && schema.len() == 5);
        assert forall|i: int| 0 <= i < vals.len() implies #[trigger] kind_of(vals[i]) == schema[i] by {
            if i == 0 {} else if i == 1 {} else if i == 2 {} else if i == 3 {} else {}
        }
    }
}

impl Default for UpdateDiscountRequest {
    fn default() -> (r: Self)
        ensures
            r.spec_values() == defaults(Self::spec_schema()),
    {
        let r = UpdateDiscountRequest { discount_id: 0, product_id: None, discount_percentage: None, start_date: None, end_date: None };
        assert(r.spec_values() =~= defaults(Self::spec_schema()));
        r
    }
}

#[derive(Clone, Debug)]
pub struct DeleteDiscountRequest {
    pub discount_id: i64,
}

impl ProtoMessage for DeleteDiscountRequest {
    open spec fn spec_schema() -> Seq<Kind> {
        seq![Kind::Int64]
    }

    open spec fn spec_values(&self) -> Seq<ScalarValue> {
        seq![
            ScalarValue::Int64(self.discount_id),
        ]
    }

    fn schema() -> (r: Vec<Kind>) {
        vec![Kind::Int64]
    }

    fn to_scalars(&self) -> (r: Vec<Scalar>) {
        let r = vec![
            Scalar::Int64(self.discount_id),
        ];
        assert(values_of(r@) =~= self.spec_values());
        r
    }

    fn from_scalars(v: Vec<Scalar>) -> (r: Self) {
        let ghost vals = values_of(v@);
        proof {
            assert(kind_of(vals[0]) == Kind::Int64);
        }
        let mut v = v;
        let discount_id = pop_int64(&mut v);
        let r = DeleteDiscountRequest { discount_id };
        assert(r.spec_values() =~= vals);
        r
    }

    proof fn lemma_schema(&self) {
        let vals = self.spec_values();
        let schema = Self::spec_schema();
        assert(vals.len() == 1 && schema.len() == 1);
        assert forall|i: int| 0 <= i < vals.len() implies #[trigger] kind_of(vals[i]) == schema[i] by {
            assert(i == 0);
        }
    }
}

impl Default for DeleteDiscountRequest {
    fn default() -> (r: Self)
        ensures
            r.spec_values() == defaults(Self::spec_schema()),
    {
        let r = DeleteDiscountRequest { discount_id: 0 };
        assert(r.spec_values() =~= defaults(Self::spec_schema()));
        r
    }
}

#[derive(Clone, Debug)]
pub struct DiscountResponse {
    pub discount_id: i64,
    pub product_id: i64,
    /// IEEE 754 bit pattern.
    pub discount_percentage: u64,
    pub start_date: String,
    pub end_date: String,
}

impl ProtoMessage for DiscountResponse {
    open spec fn spec_schema() -> Seq<Kind> {
        seq![Kind::Int64, Kind::Int64, Kind::Double, Kind::Str, Kind::Str]
    }

    open spec fn spec_values(&self) -> Seq<ScalarValue> {
        seq![
            ScalarValue::Int64(self.discount_id),
            ScalarValue::Int64(self.product_id),
            ScalarValue::Double(self.discount_percentage),
            ScalarValue::Str(self.start_date@),
            ScalarValue::Str(self.end_date@),
        ]
    }

    fn schema() -> (r: Vec<Kind>) {
        vec![Kind::Int64, Kind::Int64, Kind::Double, Kind::Str, Kind::Str]
    }

    fn to_scalars(&self) -> (r: Vec<Scalar>) {
        let r = vec![
            Scalar::Int64(self.discount_id),
            Scalar::Int64(self.product_id),
            Scalar::Double(self.discount_percentage),
            Scalar::Str(self.start_date.clone()),
            Scalar::Str(self.end_date.clone()),
        ];
        assert(values_of(r@) =~= self.spec_values());
        r
    }

    fn from_scalars(v: Vec<Scalar>) -> (r: Self) {
        let ghost vals = values_of(v@);
        proof {
            assert(kind_of(vals[0]) == Kind::Int64);
            assert(kind_of(vals[1]) == Kind::Int64);
            assert(kind_of(vals[2]) == Kind::Double);
            assert(kind_of(vals[3]) == Kind::Str);
            assert(kind_of(vals[4]) == Kind::Str);
        }
        let mut v = v;
        let end_date = pop_str(&mut v);
        let start_date = pop_str(&mut v);
        let discount_percentage = pop_double(&mut v);
        let product_id = pop_int64(&mut v);
        let discount_id = pop_int64(&mut v);
        let r = DiscountResponse { discount_id, product_id, discount_percentage, start_date, end_date };
        assert(r.spec_values() =~= vals);
        r
    }

    proof fn lemma_schema(&self) {
        let vals = self.spec_values();
        let schema = Self::spec_schema();
        assert(vals.len() == 5 && schema.len() == 5);
        assert forall|i: int| 0 <= i < vals.len() implies #[trigger] kind_of(vals[i]) == schema[i] by {
            if i == 0 {} else if i == 1 {} else if i == 2 {} else if i == 3 {} else {}
        }
    }
}

impl Default for DiscountResponse {
    fn default() -> (r: Self)
        ensures
            r.spec_values() == defaults(Self::spec_schema()),
    {
        let r = DiscountResponse { discount_id: 0, product_id: 0, discount_percentage: 0, start_date: String::new(), end_date: String::new() };
        assert(r.spec_values() =~= defaults(Self::spec_schema()));
        r
    }
}

#[derive(Clone, Debug)]
pub struct DiscountsResponse {
    pub items: Vec<DiscountResponse>,
}

impl ProtoList for DiscountsResponse {
    type Item = DiscountResponse;

    open spec fn spec_items(&self) -> Seq<DiscountResponse> {
        self.items@
    }

    fn items(&self) -> (r: &Vec<DiscountResponse>) {
        &self.items
    }

    fn from_items(items: Vec<DiscountResponse>) -> (r: Self) {
        DiscountsResponse { items }
    }
}

impl Default for DiscountsResponse {
    fn default() -> (r: Self)
        ensures
            r.spec_items() == Seq::<DiscountResponse>::empty(),
    {
        DiscountsResponse { items: Vec::new() }
    }
}

#[derive(Clone, Debug)]
pub struct CreateShippingMethodRequest {
    pub method_name: String,
    /// IEEE 754 bit pattern.
    pub cost: u64,
    pub estimated_delivery_time: String,
}

impl ProtoMessage for CreateShippingMethodRequest {
    open spec fn spec_schema() -> Seq<Kind> {
        seq![Kind::Str, Kind::Double, Kind::Str]
    }

    open spec fn spec_values(&self) -> Seq<ScalarValue> {
        seq![
            ScalarValue::Str(self.method_name@),
            ScalarValue::Double(self.cost),
            ScalarValue::Str(self.estimated_delivery_time@),
        ]
    }

    fn schema() -> (r: Vec<Kind>) {
        vec![Kind::Str, Kind::Double, Kind::Str]
    }

    fn to_scalars(&self) -> (r: Vec<Scalar>) {
        let r = vec![
            Scalar::Str(self.method_name.clone()),
            Scalar::Double(self.cost),
            Scalar::Str(self.estimated_delivery_time.clone()),
        ];
        assert(values_of(r@) =~= self.spec_values());
        r
    }

    fn from_scalars(v: Vec<Scalar>) -> (r: Self) {
        let ghost vals = values_of(v@);
        proof {
            assert(kind_of(vals[0]) == Kind::Str);
            assert(kind_of(vals[1]) == Kind::Double);
            assert(kind_of(vals[2]) == Kind::Str);
        }
        let mut v = v;
        let estimated_delivery_time = pop_str(&mut v);
        let cost = pop_double(&mut v);
        let method_name = pop_str(&mut v);
        let r = CreateShippingMethodRequest { method_name, cost, estimated_delivery_time };
        assert(r.spec_values() =~= vals);
        r
    }

    proof fn lemma_schema(&self) {
        let vals = self.spec_values();
        let schema = Self::spec_schema();
        assert(vals.len() == 3 && schema.len() == 3);
        assert forall|i: int| 0 <= i < vals.len() implies #[trigger] kind_of(vals[i]) == schema[i] by {
            if i == 0 {} else if i == 1 {} else {}
        }
    }
}

impl Default for CreateShippingMethodRequest {
    fn default() -> (r: Self)
        ensures
            r.spec_values() == defaults(Self::spec_schema()),
    {
        let r = CreateShippingMethodRequest { method_name: String::new(), cost: 0, estimated_delivery_time: String::new() };
        assert(r.spec_values() =~= defaults(Self::spec_schema()));
        r
    }
}

#[derive(Clone, Debug)]
pub struct GetShippingMethodRequest {
    pub method_id: i64,
}

impl ProtoMessage for GetShippingMethodRequest {
    open spec fn spec_schema() -> Seq<Kind> {
        seq![Kind::Int64]
    }

    open spec fn spec_values(&self) -> Seq<ScalarValue> {
        seq![
            ScalarValue::Int64(self.method_id),
        ]
    }

    fn schema() -> (r: Vec<Kind>) {
        vec![Kind::Int64]
    }

    fn to_scalars(&self) -> (r: Vec<Scalar>) {
        let r = vec![
            Scalar::Int64(self.method_id),
        ];
        assert(values_of(r@) =~= self.spec_values());
        r
    }

    fn from_scalars(v: Vec<Scalar>) -> (r: Self) {
        let ghost vals = values_of(v@);
        proof {
            assert(kind_of(vals[0]) == Kind::Int64);
        }
        let mut v = v;
        let method_id = pop_int64(&mut v);
        let r = GetShippingMethodRequest { method_id };
        assert(r.spec_values() =~= vals);
        r
    }

    proof fn lemma_schema(&self) {
        let vals = self.spec_values();
        let schema = Self::spec_schema();
        assert(vals.len() == 1 && schema.len() == 1);
        assert forall|i: int| 0 <= i < vals.len() implies #[trigger] kind_of(vals[i]) == schema[i] by {
            assert(i == 0);
        }
    }
}

impl Default for GetShippingMethodRequest {
    fn default() -> (r: Self)
        ensures
            r.spec_values() == defaults(Self::spec_schema()),
    {
        let r = GetShippingMethodRequest { method_id: 0 };
        assert(r.spec_values() =~= defaults(Self::spec_schema()));
        r
    }
}

#[derive(Clone, Debug)]
pub struct UpdateShippingMethodRequest {
    pub method_id: i64,
    pub method_name: Option<String>,
    /// IEEE 754 bit pattern.
    pub cost: Option<u64>,
    pub estimated_delivery_time: Option<String>,
}

impl ProtoMessage for UpdateShippingMethodRequest {
    open spec fn spec_schema() -> Seq<Kind> {
        seq![Kind::Int64, Kind::OptStr, Kind::OptDouble, Kind::OptStr]
    }

    open spec fn spec_values(&self) -> Seq<ScalarValue> {
        seq![
            ScalarValue::Int64(self.method_id),
            ScalarValue::OptStr(opt_chars(self.method_name)),
            ScalarValue::OptDouble(self.cost),
            ScalarValue::OptStr(opt_chars(self.estimated_delivery_time)),
        ]
    }

    fn schema() -> (r: Vec<Kind>) {
        vec![Kind::Int64, Kind::OptStr, Kind::OptDouble, Kind::OptStr]
    }

    fn to_scalars(&self) -> (r: Vec<Scalar>) {
        let r = vec![
            Scalar::Int64(self.method_id),
            opt_str_scalar(&self.method_name),
            Scalar::OptDouble(self.cost),
            opt_str_scalar(&self.estimated_delivery_time),
        ];
        assert(values_of(r@) =~= self.spec_values());
        r
    }

    fn from_scalars(v: Vec<Scalar>) -> (r: Self) {
        let ghost vals = values_of(v@);
        proof {
            assert(kind_of(vals[0]) == Kind::Int64);
            assert(kind_of(vals[1]) == Kind::OptStr);
            assert(kind_of(vals[2]) == Kind::OptDouble);
            assert(kind_of(vals[3]) == Kind::OptStr);
        }
        let mut v = v;
        let estimated_delivery_time = pop_opt_str(&mut v);
        let cost = pop_opt_double(&mut v);
        let method_name = pop_opt_str(&mut v);
        let method_id = pop_int64(&mut v);
        let r = UpdateShippingMethodRequest { method_id, method_name, cost, estimated_delivery_time };
        assert(r.spec_values() =~= vals);
        r
    }

    proof fn lemma_schema(&self) {
        let vals = self.spec_values();
        let schema = Self::spec_schema();
        assert(vals.len() == 4 && schema.len() == 4);
        assert forall|i: int| 0 <= i < vals.len() implies #[trigger] kind_of(vals[i]) == schema[i] by {
            if i == 0 {} else if i == 1 {} else if i == 2 {} else {}
        }
    }
}

impl Default for UpdateShippingMethodRequest {
    fn default() -> (r: Self)
        ensures
            r.spec_values() == defaults(Self::spec_schema()),
    {
        let r = UpdateShippingMethodRequest { method_id: 0, method_name: None, cost: None, estimated_delivery_time: None };
        assert(r.spec_values() =~= defaults(Self::spec_schema()));
        r
    }
}

#[derive(Clone, Debug)]
pub struct DeleteShippingMethodRequest {
    pub method_id: i64,
}

impl ProtoMessage for DeleteShippingMethodRequest {
    open spec fn spec_schema() -> Seq<Kind> {
        seq![Kind::Int64]
    }

    open spec fn spec_values(&self) -> Seq<ScalarValue> {
        seq![
            ScalarValue::Int64(self.method_id),
        ]
    }

    fn schema() -> (r: Vec<Kind>) {
        vec![Kind::Int64]
    }

    fn to_scalars(&self) -> (r: Vec<Scalar>) {
        let r = vec![
            Scalar::Int64(self.method_id),
        ];
        assert(values_of(r@) =~= self.spec_values());
        r
    }

    fn from_scalars(v: Vec<Scalar>) -> (r: Self) {
        let ghost vals = values_of(v@);
        proof {
            assert(kind_of(vals[0]) == Kind::Int64);
        }
        let mut v = v;
        let method_id = pop_int64(&mut v);
        let r = DeleteShippingMethodRequest { method_id };
        assert(r.spec_values() =~= vals);
        r
    }

    proof fn lemma_schema(&self) {
        let vals = self.spec_values();
        let schema = Self::spec_schema();
        assert(vals.len() == 1 && schema.len() == 1);
        assert forall|i: int| 0 <= i < vals.len() implies #[trigger] kind_of(vals[i]) == schema[i] by {
            assert(i == 0);
        }
    }
}

impl Default for DeleteShippingMethodRequest {
    fn default() -> (r: Self)
        ensures
            r.spec_values() == defaults(Self::spec_schema()),
    {
        let r = DeleteShippingMethodRequest { method_id: 0 };
        assert(r.spec_values() =~= defaults(Self::spec_schema()));
        r
    }
}

#[derive(Clone, Debug)]
pub struct ShippingMethodResponse {
    pub method_id: i64,
    pub method_name: String,
    /// IEEE 754 bit pattern.
    pub cost: u64,
    pub estimated_delivery_time: String,
}

impl ProtoMessage for ShippingMethodResponse {
    open spec fn spec_schema() -> Seq<Kind> {
        seq![Kind::Int64, Kind::Str, Kind::Double, Kind::Str]
    }

    open spec fn spec_values(&self) -> Seq<ScalarValue> {
        seq![
            ScalarValue::Int64(self.method_id),
            ScalarValue::Str(self.method_name@),
            ScalarValue::Double(self.cost),
            ScalarValue::Str(self.estimated_delivery_time@),
        ]
    }

    fn schema() -> (r: Vec<Kind>) {
        vec![Kind::Int64, Kind::Str, Kind::Double, Kind::Str]
    }

    fn to_scalars(&self) -> (r: Vec<Scalar>) {
        let r = vec![
            Scalar::Int64(self.method_id),
            Scalar::Str(self.method_name.clone()),
            Scalar::Double(self.cost),
            Scalar::Str(self.estimated_delivery_time.clone()),
        ];
        assert(values_of(r@) =~= self.spec_values());
        r
    }

    fn from_scalars(v: Vec<Scalar>) -> (r: Self) {
        let ghost vals = values_of(v@);
        proof {
            assert(kind_of(vals[0]) == Kind::Int64);
            assert(kind_of(vals[1]) == Kind::Str);
            assert(kind_of(vals[2]) == Kind::Double);
            assert(kind_of(vals[3]) == Kind::Str);
        }
        let mut v = v;
        let estimated_delivery_time = pop_str(&mut v);
        let cost = pop_double(&mut v);
        let method_name = pop_str(&mut v);
        let method_id = pop_int64(&mut v);
        let r = ShippingMethodResponse { method_id, method_name, cost, estimated_delivery_time };
        assert(r.spec_values() =~= vals);
        r
    }

    proof fn lemma_schema(&self) {
        let vals = self.spec_values();
        let schema = Self::spec_schema();
        assert(vals.len() == 4 && schema.len() == 4);
        assert forall|i: int| 0 <= i < vals.len() implies #[trigger] kind_of(vals[i]) == schema[i] by {
            if i == 0 {} else if i == 1 {} else if i == 2 {} else {}
        }
    }
}

impl Default for ShippingMethodResponse {
    fn default() -> (r: Self)
        ensures
            r.spec_values() == defaults(Self::spec_schema()),
    {
        let r = ShippingMethodResponse { method_id: 0, method_name: String::new(), cost: 0, estimated_delivery_time: String::new() };
        assert(r.spec_values() =~= defaults(Self::spec_schema()));
        r
    }
}

#[derive(Clone, Debug)]
pub struct ShippingMethodsResponse {
    pub items: Vec<ShippingMethodResponse>,
}

impl ProtoList for ShippingMethodsResponse {
    type Item = ShippingMethodResponse;

    open spec fn spec_items(&self) -> Seq<ShippingMethodResponse> {
        self.items@
    }

    fn items(&self) -> (r: &Vec<ShippingMethodResponse>) {
        &self.items
    }

    fn from_items(items: Vec<ShippingMethodResponse>) -> (r: Self) {
        ShippingMethodsResponse { items }
    }
}

impl Default for ShippingMethodsResponse {
    fn default() -> (r: Self)
        ensures
            r.spec_items() == Seq::<ShippingMethodResponse>::empty(),
    {
        ShippingMethodsResponse { items: Vec::new() }
    }
}

#[derive(Clone, Debug)]
pub struct CreateUserRoleRequest {
    pub role_name: String,
}

impl ProtoMessage for CreateUserRoleRequest {
    open spec fn spec_schema() -> Seq<Kind> {
        seq![Kind::Str]
    }

    open spec fn spec_values(&self) -> Seq<ScalarValue> {
        seq![
            ScalarValue::Str(self.role_name@),
        ]
    }

    fn schema() -> (r: Vec<Kind>) {
        vec![Kind::Str]
    }

    fn to_scalars(&self) -> (r: Vec<Scalar>) {
        let r = vec![
            Scalar::Str(self.role_name.clone()),
        ];
        assert(values_of(r@) =~= self.spec_values());
        r
    }

    fn from_scalars(v: Vec<Scalar>) -> (r: Self) {
        let ghost vals = values_of(v@);
        proof {
            assert(kind_of(vals[0]) == Kind::Str);
        }
        let mut v = v;
        let role_name = pop_str(&mut v);
        let r = CreateUserRoleRequest { role_name };
        assert(r.spec_values() =~= vals);
        r
    }

    proof fn lemma_schema(&self) {
        let vals = self.spec_values();
        let schema = Self::spec_schema();
        assert(vals.len() == 1 && schema.len() == 1);
        assert forall|i: int| 0 <= i < vals.len() implies #[trigger] kind_of(vals[i]) == schema[i] by {
            assert(i == 0);
        }
    }
}

impl Default for CreateUserRoleRequest {
    fn default() -> (r: Self)
        ensures
            r.spec_values() == defaults(Self::spec_schema()),
    {
        let r = CreateUserRoleRequest { role_name: String::new() };
        assert(r.spec_values() =~= defaults(Self::spec_schema()));
        r
    }
}

#[derive(Clone, Debug)]
pub struct GetUserRoleRequest {
    pub role_id: i64,
}

impl ProtoMessage for GetUserRoleRequest {
    open spec fn spec_schema() -> Seq<Kind> {
        seq![Kind::Int64]
    }

    open spec fn spec_values(&self) -> Seq<ScalarValue> {
        seq![
            ScalarValue::Int64(self.role_id),
        ]
    }

    fn schema() -> (r: Vec<Kind>) {
        vec![Kind::Int64]
    }

    fn to_scalars(&self) -> (r: Vec<Scalar>) {
        let r = vec![
            Scalar::Int64(self.role_id),
        ];
        assert(values_of(r@) =~= self.spec_values());
        r
    }

    fn from_scalars(v: Vec<Scalar>) -> (r: Self) {
        let ghost vals = values_of(v@);
        proof {
            assert(kind_of(vals[0]) == Kind::Int64);
        }
        let mut v = v;
        let role_id = pop_int64(&mut v);
        let r = GetUserRoleRequest { role_id };
        assert(r.spec_values() =~= vals);
        r
    }

    proof fn lemma_schema(&self) {
        let vals = self.spec_values();
        let schema = Self::spec_schema();
        assert(vals.len() == 1 && schema.len() == 1);
        assert forall|i: int| 0 <= i < vals.len() implies #[trigger] kind_of(vals[i]) == schema[i] by {
            assert(i == 0);
        }
    }
}

impl Default for GetUserRoleRequest {
    fn default() -> (r: Self)
        ensures
            r.spec_values() == defaults(Self::spec_schema()),
    {
        let r = GetUserRoleRequest { role_id: 0 };
        assert(r.spec_values() =~= defaults(Self::spec_schema()));
        r
    }
}

#[derive(Clone, Debug)]
pub struct UpdateUserRoleRequest {
    pub role_id: i64,
    pub role_name: String,
}

impl ProtoMessage for UpdateUserRoleRequest {
    open spec fn spec_schema() -> Seq<Kind> {
        seq![Kind::Int64, Kind::Str]
    }

    open spec fn spec_values(&self) -> Seq<ScalarValue> {
        seq![
            ScalarValue::Int64(self.role_id),
            ScalarValue::Str(self.role_name@),
        ]
    }

    fn schema() -> (r: Vec<Kind>) {
        vec![Kind::Int64, Kind::Str]
    }

    fn to_scalars(&self) -> (r: Vec<Scalar>) {
        let r = vec![
            Scalar::Int64(self.role_id),
            Scalar::Str(self.role_name.clone()),
        ];
        assert(values_of(r@) =~= self.spec_values());
        r
    }

    fn from_scalars(v: Vec<Scalar>) -> (r: Self) {
        let ghost vals = values_of(v@);
        proof {
            assert(kind_of(vals[0]) == Kind::Int64);
            assert(kind_of(vals[1]) == Kind::Str);
        }
        let mut v = v;
        let role_name = pop_str(&mut v);
        let role_id = pop_int64(&mut v);
        let r = UpdateUserRoleRequest { role_id, role_name };
        assert(r.spec_values() =~= vals);
        r
    }

    proof fn lemma_schema(&self) {
        let vals = self.spec_values();
        let schema = Self::spec_schema();
        assert(vals.len() == 2 && schema.len() == 2);
        assert forall|i: int| 0 <= i < vals.len() implies #[trigger] kind_of(vals[i]) == schema[i] by {
            if i == 0 {} else {}
        }
    }
}

impl Default for UpdateUserRoleRequest {
    fn default() -> (r: Self)
        ensures
            r.spec_values() == defaults(Self::spec_schema()),
    {
        let r = UpdateUserRoleRequest { role_id: 0, role_name: String::new() };
        assert(r.spec_values() =~= defaults(Self::spec_schema()));
        r
    }
}

#[derive(Clone, Debug)]
pub struct DeleteUserRoleRequest {
    pub role_id: i64,
}

impl ProtoMessage for DeleteUserRoleRequest {
    open spec fn spec_schema() -> Seq<Kind> {
        seq![Kind::Int64]
    }

    open spec fn spec_values(&self) -> Seq<ScalarValue> {
        seq![
            ScalarValue::Int64(self.role_id),
        ]
    }

    fn schema() -> (r: Vec<Kind>) {
        vec![Kind::Int64]
    }

    fn to_scalars(&self) -> (r: Vec<Scalar>) {
        let r = vec![
            Scalar::Int64(self.role_id),
        ];
        assert(values_of(r@) =~= self.spec_values());
        r
    }

    fn from_scalars(v: Vec<Scalar>) -> (r: Self) {
        let ghost vals = values_of(v@);
        proof {
            assert(kind_of(vals[0]) == Kind::Int64);
        }
        let mut v = v;
        let role_id = pop_int64(&mut v);
        let r = DeleteUserRoleRequest { role_id };
        assert(r.spec_values() =~= vals);
        r
    }

    proof fn lemma_schema(&self) {
        let vals = self.spec_values();
        let schema = Self::spec_schema();
        assert(vals.len() == 1 && schema.len() == 1);
        assert forall|i: int| 0 <= i < vals.len() implies #[trigger] kind_of(vals[i]) == schema[i] by {
            assert(i == 0);
        }
    }
}

impl Default for DeleteUserRoleRequest {
    fn default() -> (r: Self)
        ensures
            r.spec_values() == defaults(Self::spec_schema()),
    {
        let r = DeleteUserRoleRequest { role_id: 0 };
        assert(r.spec_values() =~= defaults(Self::spec_schema()));
        r
    }
}

#[derive(Clone, Debug)]
pub struct UserRoleResponse {
    pub role_id: i64,
    pub role_name: String,
}

impl ProtoMessage for UserRoleResponse {
    open spec fn spec_schema() -> Seq<Kind> {
        seq![Kind::Int64, Kind::Str]
    }

    open spec fn spec_values(&self) -> Seq<ScalarValue> {
        seq![
            ScalarValue::Int64(self.role_id),
            ScalarValue::Str(self.role_name@),
        ]
    }

    fn schema() -> (r: Vec<Kind>) {
        vec![Kind::Int64, Kind::Str]
    }

    fn to_scalars(&self) -> (r: Vec<Scalar>) {
        let r = vec![
            Scalar::Int64(self.role_id),
            Scalar::Str(self.role_name.clone()),
        ];
        assert(values_of(r@) =~= self.spec_values());
        r
    }

    fn from_scalars(v: Vec<Scalar>) -> (r: Self) {
        let ghost vals = values_of(v@);
        proof {
            assert(kind_of(vals[0]) == Kind::Int64);
            assert(kind_of(vals[1]) == Kind::Str);
        }
        let mut v = v;
        let role_name = pop_str(&mut v);
        let role_id = pop_int64(&mut v);
        let r = UserRoleResponse { role_id, role_name };
        assert(r.spec_values() =~= vals);
        r
    }

    proof fn lemma_schema(&self) {
        let vals = self.spec_values();
        let schema = Self::spec_schema();
        assert(vals.len() == 2 && schema.len() == 2);
        assert forall|i: int| 0 <= i < vals.len() implies #[trigger] kind_of(vals[i]) == schema[i] by {
            if i == 0 {} else {}
        }
    }
}

impl Default for UserRoleResponse {
    fn default() -> (r: Self)
        ensures
            r.spec_values() == defaults(Self::spec_schema()),
    {
        let r = UserRoleResponse { role_id: 0, role_name: String::new() };
        assert(r.spec_values() =~= defaults(Self::spec_schema()));
        r
    }
}

#[derive(Clone, Debug)]
pub struct UserRolesResponse {
    pub items: Vec<UserRoleResponse>,
}

impl ProtoList for UserRolesResponse {
    type Item = UserRoleResponse;

    open spec fn spec_items(&self) -> Seq<UserRoleResponse> {
        self.items@
    }

    fn items(&self) -> (r: &Vec<UserRoleResponse>) {
        &self.items
    }

    fn from_items(items: Vec<UserRoleResponse>) -> (r: Self) {
        UserRolesResponse { items }
    }
}

impl Default for UserRolesResponse {
    fn default() -> (r: Self)
        ensures
            r.spec_items() == Seq::<UserRoleResponse>::empty(),
    {
        UserRolesResponse { items: Vec::new() }
    }
}

#[derive(Clone, Debug)]
pub struct CreateUserRolesMappingRequest {
    pub user_id: i64,
    pub role_id: i64,
}

impl ProtoMessage for CreateUserRolesMappingRequest {
    open spec fn spec_schema() -> Seq<Kind> {
        seq![Kind::Int64, Kind::Int64]
    }

    open spec fn spec_values(&self) -> Seq<ScalarValue> {
        seq![
            ScalarValue::Int64(self.user_id),
            ScalarValue::Int64(self.role_id),
        ]
    }

    fn schema() -> (r: Vec<Kind>) {
        vec![Kind::Int64, Kind::Int64]
    }

    fn to_scalars(&self) -> (r: Vec<Scalar>) {
        let r = vec![
            Scalar::Int64(self.user_id),
            Scalar::Int64(self.role_id),
        ];
        assert(values_of(r@) =~= self.spec_values());
        r
    }

    fn from_scalars(v: Vec<Scalar>) -> (r: Self) {
        let ghost vals = values_of(v@);
        proof {
            assert(kind_of(vals[0]) == Kind::Int64);
            assert(kind_of(vals[1]) == Kind::Int64);
        }
        let mut v = v;
        let role_id = pop_int64(&mut v);
        let user_id = pop_int64(&mut v);
        let r = CreateUserRolesMappingRequest { user_id, role_id };
        assert(r.spec_values() =~= vals);
        r
    }

    proof fn lemma_schema(&self) {
        let vals = self.spec_values();
        let schema = Self::spec_schema();
        assert(vals.len() == 2 && schema.len() == 2);
        assert forall|i: int| 0 <= i < vals.len() implies #[trigger] kind_of(vals[i]) == schema[i] by {
            if i == 0 {} else {}
        }
    }
}

impl Default for CreateUserRolesMappingRequest {
    fn default() -> (r: Self)
        ensures
            r.spec_values() == defaults(Self::spec_schema()),
    {
        let r = CreateUserRolesMappingRequest { user_id: 0, role_id: 0 };
        assert(r.spec_values() =~= defaults(Self::spec_schema()));
        r
    }
}

#[derive(Clone, Debug)]
pub struct GetUserRolesMappingRequest {
    pub id: i64,
}

impl ProtoMessage for GetUserRolesMappingRequest {
    open spec fn spec_schema() -> Seq<Kind> {
        seq![Kind::Int64]
    }

    open spec fn spec_values(&self) -> Seq<ScalarValue> {
        seq![
            ScalarValue::Int64(self.id),
        ]
    }

    fn schema() -> (r: Vec<Kind>) {
        vec![Kind::Int64]
    }

    fn to_scalars(&self) -> (r: Vec<Scalar>) {
        let r = vec![
            Scalar::Int64(self.id),
        ];
        assert(values_of(r@) =~= self.spec_values());
        r
    }

    fn from_scalars(v: Vec<Scalar>) -> (r: Self) {
        let ghost vals = values_of(v@);
        proof {
            assert(kind_of(vals[0]) == Kind::Int64);
        }
        let mut v = v;
        let id = pop_int64(&mut v);
        let r = GetUserRolesMappingRequest { id };
        assert(r.spec_values() =~= vals);
        r
    }

    proof fn lemma_schema(&self) {
        let vals = self.spec_values();
        let schema = Self::spec_schema();
        assert(vals.len() == 1 && schema.len() == 1);
        assert forall|i: int| 0 <= i < vals.len() implies #[trigger] kind_of(vals[i]) == schema[i] by {
            assert(i == 0);
        }
    }
}

impl Default for GetUserRolesMappingRequest {
    fn default() -> (r: Self)
        ensures
            r.spec_values() == defaults(Self::spec_schema()),
    {
        let r = GetUserRolesMappingRequest { id: 0 };
        assert(r.spec_values() =~= defaults(Self::spec_schema()));
        r
    }
}

#[derive(Clone, Debug)]
pub struct UpdateUserRolesMappingRequest {
    pub id: i64,
    pub user_id: Option<i64>,
    pub role_id: Option<i64>,
}

impl ProtoMessage for UpdateUserRolesMappingRequest {
    open spec fn spec_schema() -> Seq<Kind> {
        seq![Kind::Int64, Kind::OptInt64, Kind::OptInt64]
    }

    open spec fn spec_values(&self) -> Seq<ScalarValue> {
        seq![
            ScalarValue::Int64(self.id),
            ScalarValue::OptInt64(self.user_id),
            ScalarValue::OptInt64(self.role_id),
        ]
    }

    fn schema() -> (r: Vec<Kind>) {
        vec![Kind::Int64, Kind::OptInt64, Kind::OptInt64]
    }

    fn to_scalars(&self) -> (r: Vec<Scalar>) {
        let r = vec![
            Scalar::Int64(self.id),
            Scalar::OptInt64(self.user_id),
            Scalar::OptInt64(self.role_id),
        ];
        assert(values_of(r@) =~= self.spec_values());
        r
    }

    fn from_scalars(v: Vec<Scalar>) -> (r: Self) {
        let ghost vals = values_of(v@);
        proof {
            assert(kind_of(vals[0]) == Kind::Int64);
            assert(kind_of(vals[1]) == Kind::OptInt64);
            assert(kind_of(vals[2]) == Kind::OptInt64);
        }
        let mut v = v;
        let role_id = pop_opt_int64(&mut v);
        let user_id = pop_opt_int64(&mut v);
        let id = pop_int64(&mut v);
        let r = UpdateUserRolesMappingRequest { id, user_id, role_id };
        assert(r.spec_values() =~= vals);
        r
    }

    proof fn lemma_schema(&self) {
        let vals = self.spec_values();
        let schema = Self::spec_schema();
        assert(vals.len() == 3 && schema.len() == 3);
        assert forall|i: int| 0 <= i < vals.len() implies #[trigger] kind_of(vals[i]) == schema[i] by {
            if i == 0 {} else if i == 1 {} else {}
        }
    }
}

impl Default for UpdateUserRolesMappingRequest {
    fn default() -> (r: Self)
        ensures
            r.spec_values() == defaults(Self::spec_schema()),
    {
        let r = UpdateUserRolesMappingRequest { id: 0, user_id: None, role_id: None };
        assert(r.spec_values() =~= defaults(Self::spec_schema()));
        r
    }
}

#[derive(Clone, Debug)]
pub struct DeleteUserRolesMappingRequest {
    pub id: i64,
}

impl ProtoMessage for DeleteUserRolesMappingRequest {
    open spec fn spec_schema() -> Seq<Kind> {
        seq![Kind::Int64]
    }

    open spec fn spec_values(&self) -> Seq<ScalarValue> {
        seq![
            ScalarValue::Int64(self.id),
        ]
    }

    fn schema() -> (r: Vec<Kind>) {
        vec![Kind::Int64]
    }

    fn to_scalars(&self) -> (r: Vec<Scalar>) {
        let r = vec![
            Scalar::Int64(self.id),
        ];
        assert(values_of(r@) =~= self.spec_values());
        r
    }

    fn from_scalars(v: Vec<Scalar>) -> (r: Self) {
        let ghost vals = values_of(v@);
        proof {
            assert(kind_of(vals[0]) == Kind::Int64);
        }
        let mut v = v;
        let id = pop_int64(&mut v);
        let r = DeleteUserRolesMappingRequest { id };
        assert(r.spec_values() =~= vals);
        r
    }

    proof fn lemma_schema(&self) {
        let vals = self.spec_values();
        let schema = Self::spec_schema();
        assert(vals.len() == 1 && schema.len() == 1);
        assert forall|i: int| 0 <= i < vals.len() implies #[trigger] kind_of(vals[i]) == schema[i] by {
            assert(i == 0);
        }
    }
}

impl Default for DeleteUserRolesMappingRequest {
    fn default() -> (r: Self)
        ensures
            r.spec_values() == defaults(Self::spec_schema()),
    {
        let r = DeleteUserRolesMappingRequest { id: 0 };
        assert(r.spec_values() =~= defaults(Self::spec_schema()));
        r
    }
}

#[derive(Clone, Debug)]
pub struct UserRolesMappingResponse {
    pub id: i64,
    pub user_id: i64,
    pub role_id: i64,
}

impl ProtoMessage for UserRolesMappingResponse {
    open spec fn spec_schema() -> Seq<Kind> {
        seq![Kind::Int64, Kind::Int64, Kind::Int64]
    }

    open spec fn spec_values(&self) -> Seq<ScalarValue> {
        seq![
            ScalarValue::Int64(self.id),
            ScalarValue::Int64(self.user_id),
            ScalarValue::Int64(self.role_id),
        ]
    }

    fn schema() -> (r: Vec<Kind>) {
        vec![Kind::Int64, Kind::Int64, Kind::Int64]
    }

    fn to_scalars(&self) -> (r: Vec<Scalar>) {
        let r = vec![
            Scalar::Int64(self.id),
            Scalar::Int64(self.user_id),
            Scalar::Int64(self.role_id),
        ];
        assert(values_of(r@) =~= self.spec_values());
        r
    }

    fn from_scalars(v: Vec<Scalar>) -> (r: Self) {
        let ghost vals = values_of(v@);
        proof {
            assert(kind_of(vals[0]) == Kind::Int64);
            assert(kind_of(vals[1]) == Kind::Int64);
            assert(kind_of(vals[2]) == Kind::Int64);
        }
        let mut v = v;
        let role_id = pop_int64(&mut v);
        let user_id = pop_int64(&mut v);
        let id = pop_int64(&mut v);
        let r = UserRolesMappingResponse { id, user_id, role_id };
        assert(r.spec_values() =~= vals);
        r
    }

    proof fn lemma_schema(&self) {
        let vals = self.spec_values();
        let schema = Self::spec_schema();
        assert(vals.len() == 3 && schema.len() == 3);
        assert forall|i: int| 0 <= i < vals.len() implies #[trigger] kind_of(vals[i]) == schema[i] by {
            if i == 0 {} else if i == 1 {} else {}
        }
    }
}

impl Default for UserRolesMappingResponse {
    fn default() -> (r: Self)
        ensures
            r.spec_values() == defaults(Self::spec_schema()),
    {
        let r = UserRolesMappingResponse { id: 0, user_id: 0, role_id: 0 };
        assert(r.spec_values() =~= defaults(Self::spec_schema()));
        r
    }
}

#[derive(Clone, Debug)]
pub struct UserRolesMappingsResponse {
    pub items: Vec<UserRolesMappingResponse>,
}

impl ProtoList for UserRolesMappingsResponse {
    type Item = UserRolesMappingResponse;

    open spec fn spec_items(&self) -> Seq<UserRolesMappingResponse> {
        self.items@
    }

    fn items(&self) -> (r: &Vec<UserRolesMappingResponse>) {
        &self.items
    }

    fn from_items(items: Vec<UserRolesMappingResponse>) -> (r: Self) {
        UserRolesMappingsResponse { items }
    }
}

impl Default for UserRolesMappingsResponse {
    fn default() -> (r: Self)
        ensures
            r.spec_items() == Seq::<UserRolesMappingResponse>::empty(),
    {
        UserRolesMappingsResponse { items: Vec::new() }
    }
}

#[derive(Clone, Debug)]
pub struct CreateTransactionRequest {
    pub user_id: i64,
    /// IEEE 754 bit pattern.
    pub amount: u64,
}

impl ProtoMessage for CreateTransactionRequest {
    open spec fn spec_schema() -> Seq<Kind> {
        seq![Kind::Int64, Kind::Double]
    }

    open spec fn spec_values(&self) -> Seq<ScalarValue> {
        seq![
            ScalarValue::Int64(self.user_id),
            ScalarValue::Double(self.amount),
        ]
    }

    fn schema() -> (r: Vec<Kind>) {
        vec![Kind::Int64, Kind::Double]
    }

    fn to_scalars(&self) -> (r: Vec<Scalar>) {
        let r = vec![
            Scalar::Int64(self.user_id),
            Scalar::Double(self.amount),
        ];
        assert(values_of(r@) =~= self.spec_values());
        r
    }

    fn from_scalars(v: Vec<Scalar>) -> (r: Self) {
        let ghost vals = values_of(v@);
        proof {
            assert(kind_of(vals[0]) == Kind::Int64);
            assert(kind_of(vals[1]) == Kind::Double);
        }
        let mut v = v;
        let amount = pop_double(&mut v);
        let user_id = pop_int64(&mut v);
        let r = CreateTransactionRequest { user_id, amount };
        assert(r.spec_values() =~= vals);
        r
    }

    proof fn lemma_schema(&self) {
        let vals = self.spec_values();
        let schema = Self::spec_schema();
        assert(vals.len() == 2 && schema.len() == 2);
        assert forall|i: int| 0 <= i < vals.len() implies #[trigger] kind_of(vals[i]) == schema[i] by {
            if i == 0 {} else {}
        }
    }
}

impl Default for CreateTransactionRequest {
    fn default() -> (r: Self)
        ensures
            r.spec_values() == defaults(Self::spec_schema()),
    {
        let r = CreateTransactionRequest { user_id: 0, amount: 0 };
        assert(r.spec_values() =~= defaults(Self::spec_schema()));
        r
    }
}

#[derive(Clone, Debug)]
pub struct GetTransactionRequest {
    pub transaction_id: i64,
}

impl ProtoMessage for GetTransactionRequest {
    open spec fn spec_schema() -> Seq<Kind> {
        seq![Kind::Int64]
    }

    open spec fn spec_values(&self) -> Seq<ScalarValue> {
        seq![
            ScalarValue::Int64(self.transaction_id),
        ]
    }

    fn schema() -> (r: Vec<Kind>) {
        vec![Kind::Int64]
    }

    fn to_scalars(&self) -> (r: Vec<Scalar>) {
        let r = vec![
            Scalar::Int64(self.transaction_id),
        ];
        assert(values_of(r@) =~= self.spec_values());
        r
    }

    fn from_scalars(v: Vec<Scalar>) -> (r: Self) {
        let ghost vals = values_of(v@);
        proof {
            assert(kind_of(vals[0]) == Kind::Int64);
        }
        let mut v = v;
        let transaction_id = pop_int64(&mut v);
        let r = GetTransactionRequest { transaction_id };
        assert(r.spec_values() =~= vals);
        r
    }

    proof fn lemma_schema(&self) {
        let vals = self.spec_values();
        let schema = Self::spec_schema();
        assert(vals.len() == 1 && schema.len() == 1);
        assert forall|i: int| 0 <= i < vals.len() implies #[trigger] kind_of(vals[i]) == schema[i] by {
            assert(i == 0);
        }
    }
}

impl Default for GetTransactionRequest {
    fn default() -> (r: Self)
        ensures
            r.spec_values() == defaults(Self::spec_schema()),
    {
        let r = GetTransactionRequest { transaction_id: 0 };
        assert(r.spec_values() =~= defaults(Self::spec_schema()));
        r
    }
}

#[derive(Clone, Debug)]
pub struct UpdateTransactionRequest {
    pub transaction_id: i64,
    pub user_id: Option<i64>,
    /// IEEE 754 bit pattern.
    pub amount: Option<u64>,
}

impl ProtoMessage for UpdateTransactionRequest {
    open spec fn spec_schema() -> Seq<Kind> {
        seq![Kind::Int64, Kind::OptInt64, Kind::OptDouble]
    }

    open spec fn spec_values(&self) -> Seq<ScalarValue> {
        seq![
            ScalarValue::Int64(self.transaction_id),
            ScalarValue::OptInt64(self.user_id),
            ScalarValue::OptDouble(self.amount),
        ]
    }

    fn schema() -> (r: Vec<Kind>) {
        vec![Kind::Int64, Kind::OptInt64, Kind::OptDouble]
    }

    fn to_scalars(&self) -> (r: Vec<Scalar>) {
        let r = vec![
            Scalar::Int64(self.transaction_id),
            Scalar::OptInt64(self.user_id),
            Scalar::OptDouble(self.amount),
        ];
        assert(values_of(r@) =~= self.spec_values());
        r
    }

    fn from_scalars(v: Vec<Scalar>) -> (r: Self) {
        let ghost vals = values_of(v@);
        proof {
            assert(kind_of(vals[0]) == Kind::Int64);
            assert(kind_of(vals[1]) == Kind::OptInt64);
            assert(kind_of(vals[2]) == Kind::OptDouble);
        }
        let mut v = v;
        let amount = pop_opt_double(&mut v);
        let user_id = pop_opt_int64(&mut v);
        let transaction_id = pop_int64(&mut v);
        let r = UpdateTransactionRequest { transaction_id, user_id, amount };
        assert(r.spec_values() =~= vals);
        r
    }

    proof fn lemma_schema(&self) {
        let vals = self.spec_values();
        let schema = Self::spec_schema();
        assert(vals.len() == 3 && schema.len() == 3);
        assert forall|i: int| 0 <= i < vals.len() implies #[trigger] kind_of(vals[i]) == schema[i] by {
            if i == 0 {} else if i == 1 {} else {}
        }
    }
}

impl Default for UpdateTransactionRequest {
    fn default() -> (r: Self)
        ensures
            r.spec_values() == defaults(Self::spec_schema()),
    {
        let r = UpdateTransactionRequest { transaction_id: 0, user_id: None, amount: None };
        assert(r.spec_values() =~= defaults(Self::spec_schema()));
        r
    }
}

#[derive(Clone, Debug)]
pub struct DeleteTransactionRequest {
    pub transaction_id: i64,
}

impl ProtoMessage for DeleteTransactionRequest {
    open spec fn spec_schema() -> Seq<Kind> {
        seq![Kind::Int64]
    }

    open spec fn spec_values(&self) -> Seq<ScalarValue> {
        seq![
            ScalarValue::Int64(self.transaction_id),
        ]
    }

    fn schema() -> (r: Vec<Kind>) {
        vec![Kind::Int64]
    }

    fn to_scalars(&self) -> (r: Vec<Scalar>) {
        let r = vec![
            Scalar::Int64(self.transaction_id),
        ];
        assert(values_of(r@) =~= self.spec_values());
        r
    }

    fn from_scalars(v: Vec<Scalar>) -> (r: Self) {
        let ghost vals = values_of(v@);
        proof {
            assert(kind_of(vals[0]) == Kind::Int64);
        }
        let mut v = v;
        let transaction_id = pop_int64(&mut v);
        let r = DeleteTransactionRequest { transaction_id };
        assert(r.spec_values() =~= vals);
        r
    }

    proof fn lemma_schema(&self) {
        let vals = self.spec_values();
        let schema = Self::spec_schema();
        assert(vals.len() == 1 && schema.len() == 1);
        assert forall|i: int| 0 <= i < vals.len() implies #[trigger] kind_of(vals[i]) == schema[i] by {
            assert(i == 0);
        }
    }
}

impl Default for DeleteTransactionRequest {
    fn default() -> (r: Self)
        ensures
            r.spec_values() == defaults(Self::spec_schema()),
    {
        let r = DeleteTransactionRequest { transaction_id: 0 };
        assert(r.spec_values() =~= defaults(Self::spec_schema()));
        r
    }
}

#[derive(Clone, Debug)]
pub struct TransactionResponse {
    pub transaction_id: i64,
    pub user_id: i64,
    /// IEEE 754 bit pattern.
    pub amount: u64,
    pub transaction_date: String,
}

impl ProtoMessage for TransactionResponse {
    open spec fn spec_schema() -> Seq<Kind> {
        seq![Kind::Int64, Kind::Int64, Kind::Double, Kind::Str]
    }

    open spec fn spec_values(&self) -> Seq<ScalarValue> {
        seq![
            ScalarValue::Int64(self.transaction_id),
            ScalarValue::Int64(self.user_id),
            ScalarValue::Double(self.amount),
            ScalarValue::Str(self.transaction_date@),
        ]
    }

    fn schema() -> (r: Vec<Kind>) {
        vec![Kind::Int64, Kind::Int64, Kind::Double, Kind::Str]
    }

    fn to_scalars(&self) -> (r: Vec<Scalar>) {
        let r = vec![
            Scalar::Int64(self.transaction_id),
            Scalar::Int64(self.user_id),
            Scalar::Double(self.amount),
            Scalar::Str(self.transaction_date.clone()),
        ];
        assert(values_of(r@) =~= self.spec_values());
        r
    }

    fn from_scalars(v: Vec<Scalar>) -> (r: Self) {
        let ghost vals = values_of(v@);
        proof {
            assert(kind_of(vals[0]) == Kind::Int64);
            assert(kind_of(vals[1]) == Kind::Int64);
            assert(kind_of(vals[2]) == Kind::Double);
            assert(kind_of(vals[3]) == Kind::Str);
        }
        let mut v = v;
        let transaction_date = pop_str(&mut v);
        let amount = pop_double(&mut v);
        let user_id = pop_int64(&mut v);
        let transaction_id = pop_int64(&mut v);
        let r = TransactionResponse { transaction_id, user_id, amount, transaction_date };
        assert(r.spec_values() =~= vals);
        r
    }

    proof fn lemma_schema(&self) {
        let vals = self.spec_values();
        let schema = Self::spec_schema();
        assert(vals.len() == 4 && schema.len() == 4);
        assert forall|i: int| 0 <= i < vals.len() implies #[trigger] kind_of(vals[i]) == schema[i] by {
            if i == 0 {} else if i == 1 {} else if i == 2 {} else {}
        }
    }
}

impl Default for TransactionResponse {
    fn default() -> (r: Self)
        ensures
            r.spec_values() == defaults(Self::spec_schema()),
    {
        let r = TransactionResponse { transaction_id: 0, user_id: 0, amount: 0, transaction_date: String::new() };
        assert(r.spec_values() =~= defaults(Self::spec_schema()));
        r
    }
}

#[derive(Clone, Debug)]
pub struct TransactionsResponse {
    pub items: Vec<TransactionResponse>,
}

impl ProtoList for TransactionsResponse {
    type Item = TransactionResponse;

    open spec fn spec_items(&self) -> Seq<TransactionResponse> {
        self.items@
    }

    fn items(&self) -> (r: &Vec<TransactionResponse>) {
        &self.items
    }

    fn from_items(items: Vec<TransactionResponse>) -> (r: Self) {
        TransactionsResponse { items }
    }
}

impl Default for TransactionsResponse {
    fn default() -> (r: Self)
        ensures
            r.spec_items() == Seq::<TransactionResponse>::empty(),
    {
        TransactionsResponse { items: Vec::new() }
    }
}

#[derive(Clone, Debug)]
pub struct CreateNewsletterSubscriberRequest {
    pub email: String,
}

impl ProtoMessage for CreateNewsletterSubscriberRequest {
    open spec fn spec_schema() -> Seq<Kind> {
        seq![Kind::Str]
    }

    open spec fn spec_values(&self) -> Seq<ScalarValue> {
        seq![
            ScalarValue::Str(self.email@),
        ]
    }

    fn schema() -> (r: Vec<Kind>) {
        vec![Kind::Str]
    }

    fn to_scalars(&self) -> (r: Vec<Scalar>) {
        let r = vec![
            Scalar::Str(self.email.clone()),
        ];
        assert(values_of(r@) =~= self.spec_values());
        r
    }

    fn from_scalars(v: Vec<Scalar>) -> (r: Self) {
        let ghost vals = values_of(v@);
        proof {
            assert(kind_of(vals[0]) == Kind::Str);
        }
        let mut v = v;
        let email = pop_str(&mut v);
        let r = CreateNewsletterSubscriberRequest { email };
        assert(r.spec_values() =~= vals);
        r
    }

    proof fn lemma_schema(&self) {
        let vals = self.spec_values();
        let schema = Self::spec_schema();
        assert(vals.len() == 1 && schema.len() == 1);
        assert forall|i: int| 0 <= i < vals.len() implies #[trigger] kind_of(vals[i]) == schema[i] by {
            assert(i == 0);
        }
    }
}

impl Default for CreateNewsletterSubscriberRequest {
    fn default() -> (r: Self)
        ensures
            r.spec_values() == defaults(Self::spec_schema()),
    {
        let r = CreateNewsletterSubscriberRequest { email: String::new() };
        assert(r.spec_values() =~= defaults(Self::spec_schema()));
        r
    }
}

#[derive(Clone, Debug)]
pub struct GetNewsletterSubscriberRequest {
    pub subscriber_id: i64,
}

impl ProtoMessage for GetNewsletterSubscriberRequest {
    open spec fn spec_schema() -> Seq<Kind> {
        seq![Kind::Int64]
    }

    open spec fn spec_values(&self) -> Seq<ScalarValue> {
        seq![
            ScalarValue::Int64(self.subscriber_id),
        ]
    }

    fn schema() -> (r: Vec<Kind>) {
        vec![Kind::Int64]
    }

    fn to_scalars(&self) -> (r: Vec<Scalar>) {
        let r = vec![
            Scalar::Int64(self.subscriber_id),
        ];
        assert(values_of(r@) =~= self.spec_values());
        r
    }

    fn from_scalars(v: Vec<Scalar>) -> (r: Self) {
        let ghost vals = values_of(v@);
        proof {
            assert(kind_of(vals[0]) == Kind::Int64);
        }
        let mut v = v;
        let subscriber_id = pop_int64(&mut v);
        let r = GetNewsletterSubscriberRequest { subscriber_id };
        assert(r.spec_values() =~= vals);
        r
    }

    proof fn lemma_schema(&self) {
        let vals = self.spec_values();
        let schema = Self::spec_schema();
        assert(vals.len() == 1 && schema.len() == 1);
        assert forall|i: int| 0 <= i < vals.len() implies #[trigger] kind_of(vals[i]) == schema[i] by {
            assert(i == 0);
        }
    }
}

impl Default for GetNewsletterSubscriberRequest {
    fn default() -> (r: Self)
        ensures
            r.spec_values() == defaults(Self::spec_schema()),
    {
        let r = GetNewsletterSubscriberRequest { subscriber_id: 0 };
        assert(r.spec_values() =~= defaults(Self::spec_schema()));
        r
    }
}

#[derive(Clone, Debug)]
pub struct UpdateNewsletterSubscriberRequest {
    pub subscriber_id: i64,
    pub email: String,
}

impl ProtoMessage for UpdateNewsletterSubscriberRequest {
    open spec fn spec_schema() -> Seq<Kind> {
        seq![Kind::Int64, Kind::Str]
    }

    open spec fn spec_values(&self) -> Seq<ScalarValue> {
        seq![
            ScalarValue::Int64(self.subscriber_id),
            ScalarValue::Str(self.email@),
        ]
    }

    fn schema() -> (r: Vec<Kind>) {
        vec![Kind::Int64, Kind::Str]
    }

    fn to_scalars(&self) -> (r: Vec<Scalar>) {
        let r = vec![
            Scalar::Int64(self.subscriber_id),
            Scalar::Str(self.email.clone()),
        ];
        assert(values_of(r@) =~= self.spec_values());
        r
    }

    fn from_scalars(v: Vec<Scalar>) -> (r: Self) {
        let ghost vals = values_of(v@);
        proof {
            assert(kind_of(vals[0]) == Kind::Int64);
            assert(kind_of(vals[1]) == Kind::Str);
        }
        let mut v = v;
        let email = pop_str(&mut v);
        let subscriber_id = pop_int64(&mut v);
        let r = UpdateNewsletterSubscriberRequest { subscriber_id, email };
        assert(r.spec_values() =~= vals);
        r
    }

    proof fn lemma_schema(&self) {
        let vals = self.spec_values();
        let schema = Self::spec_schema();
        assert(vals.len() == 2 && schema.len() == 2);
        assert forall|i: int| 0 <= i < vals.len() implies #[trigger] kind_of(vals[i]) == schema[i] by {
            if i == 0 {} else {}
        }
    }
}

impl Default for UpdateNewsletterSubscriberRequest {
    fn default() -> (r: Self)
        ensures
            r.spec_values() == defaults(Self::spec_schema()),
    {
        let r = UpdateNewsletterSubscriberRequest { subscriber_id: 0, email: String::new() };
        assert(r.spec_values() =~= defaults(Self::spec_schema()));
        r
    }
}

#[derive(Clone, Debug)]
pub struct DeleteNewsletterSubscriberRequest {
    pub subscriber_id: i64,
}

impl ProtoMessage for DeleteNewsletterSubscriberRequest {
    open spec fn spec_schema() -> Seq<Kind> {
        seq![Kind::Int64]
    }

    open spec fn spec_values(&self) -> Seq<ScalarValue> {
        seq![
            ScalarValue::Int64(self.subscriber_id),
        ]
    }

    fn schema() -> (r: Vec<Kind>) {
        vec![Kind::Int64]
    }

    fn to_scalars(&self) -> (r: Vec<Scalar>) {
        let r = vec![
            Scalar::Int64(self.subscriber_id),
        ];
        assert(values_of(r@) =~= self.spec_values());
        r
    }

    fn from_scalars(v: Vec<Scalar>) -> (r: Self) {
        let ghost vals = values_of(v@);
        proof {
            assert(kind_of(vals[0]) == Kind::Int64);
        }
        let mut v = v;
        let subscriber_id = pop_int64(&mut v);
        let r = DeleteNewsletterSubscriberRequest { subscriber_id };
        assert(r.spec_values() =~= vals);
        r
    }

    proof fn lemma_schema(&self) {
        let vals = self.spec_values();
        let schema = Self::spec_schema();
        assert(vals.len() == 1 && schema.len() == 1);
        assert forall|i: int| 0 <= i < vals.len() implies #[trigger] kind_of(vals[i]) == schema[i] by {
            assert(i == 0);
        }
    }
}

impl Default for DeleteNewsletterSubscriberRequest {
    fn default() -> (r: Self)
        ensures
            r.spec_values() == defaults(Self::spec_schema()),
    {
        let r = DeleteNewsletterSubscriberRequest { subscriber_id: 0 };
        assert(r.spec_values() =~= defaults(Self::spec_schema()));
        r
    }
}

#[derive(Clone, Debug)]
pub struct NewsletterSubscriberResponse {
    pub subscriber_id: i64,
    pub email: String,
    pub subscription_date: String,
}

impl ProtoMessage for NewsletterSubscriberResponse {
    open spec fn spec_schema() -> Seq<Kind> {
        seq![Kind::Int64, Kind::Str, Kind::Str]
    }

    open spec fn spec_values(&self) -> Seq<ScalarValue> {
        seq![
            ScalarValue::Int64(self.subscriber_id),
            ScalarValue::Str(self.email@),
            ScalarValue::Str(self.subscription_date@),
        ]
    }

    fn schema() -> (r: Vec<Kind>) {
        vec![Kind::Int64, Kind::Str, Kind::Str]
    }

    fn to_scalars(&self) -> (r: Vec<Scalar>) {
        let r = vec![
            Scalar::Int64(self.subscriber_id),
            Scalar::Str(self.email.clone()),
            Scalar::Str(self.subscription_date.clone()),
        ];
        assert(values_of(r@) =~= self.spec_values());
        r
    }

    fn from_scalars(v: Vec<Scalar>) -> (r: Self) {
        let ghost vals = values_of(v@);
        proof {
            assert(kind_of(vals[0]) == Kind::Int64);
            assert(kind_of(vals[1]) == Kind::Str);
            assert(kind_of(vals[2]) == Kind::Str);
        }
        let mut v = v;
        let subscription_date = pop_str(&mut v);
        let email = pop_str(&mut v);
        let subscriber_id = pop_int64(&mut v);
        let r = NewsletterSubscriberResponse { subscriber_id, email, subscription_date };
        assert(r.spec_values() =~= vals);
        r
    }

    proof fn lemma_schema(&self) {
        let vals = self.spec_values();
        let schema = Self::spec_schema();
        assert(vals.len() == 3 && schema.len() == 3);
        assert forall|i: int| 0 <= i < vals.len() implies #[trigger] kind_of(vals[i]) == schema[i] by {
            if i == 0 {} else if i == 1 {} else {}
        }
    }
}

impl Default for NewsletterSubscriberResponse {
    fn default() -> (r: Self)
        ensures
            r.spec_values() == defaults(Self::spec_schema()),
    {
        let r = NewsletterSubscriberResponse { subscriber_id: 0, email: String::new(), subscription_date: String::new() };
        assert(r.spec_values() =~= defaults(Self::spec_schema()));
        r
    }
}

#[derive(Clone, Debug)]
pub struct NewsletterSubscribersResponse {
    pub items: Vec<NewsletterSubscriberResponse>,
}

impl ProtoList for NewsletterSubscribersResponse {
    type Item = NewsletterSubscriberResponse;

    open spec fn spec_items(&self) -> Seq<NewsletterSubscriberResponse> {
        self.items@
    }

    fn items(&self) -> (r: &Vec<NewsletterSubscriberResponse>) {
        &self.items
    }

    fn from_items(items: Vec<NewsletterSubscriberResponse>) -> (r: Self) {
        NewsletterSubscribersResponse { items }
    }
}

impl Default for NewsletterSubscribersResponse {
    fn default() -> (r: Self)
        ensures
            r.spec_items() == Seq::<NewsletterSubscriberResponse>::empty(),
    {
        NewsletterSubscribersResponse { items: Vec::new() }
    }
}

#[derive(Clone, Debug)]
pub struct CreateProductRatingRequest {
    pub product_id: i64,
    pub user_id: i64,
    pub rating: i64,
}

impl ProtoMessage for CreateProductRatingRequest {
    open spec fn spec_schema() -> Seq<Kind> {
        seq![Kind::Int64, Kind::Int64, Kind::Int64]
    }

    open spec fn spec_values(&self) -> Seq<ScalarValue> {
        seq![
            ScalarValue::Int64(self.product_id),
            ScalarValue::Int64(self.user_id),
            ScalarValue::Int64(self.rating),
        ]
    }

    fn schema() -> (r: Vec<Kind>) {
        vec![Kind::Int64, Kind::Int64, Kind::Int64]
    }

    fn to_scalars(&self) -> (r: Vec<Scalar>) {
        let r = vec![
            Scalar::Int64(self.product_id),
            Scalar::Int64(self.user_id),
            Scalar::Int64(self.rating),
        ];
        assert(values_of(r@) =~= self.spec_values());
        r
    }

    fn from_scalars(v: Vec<Scalar>) -> (r: Self) {
        let ghost vals = values_of(v@);
        proof {
            assert(kind_of(vals[0]) == Kind::Int64);
            assert(kind_of(vals[1]) == Kind::Int64);
            assert(kind_of(vals[2]) == Kind::Int64);
        }
        let mut v = v;
        let rating = pop_int64(&mut v);
        let user_id = pop_int64(&mut v);
        let product_id = pop_int64(&mut v);
        let r = CreateProductRatingRequest { product_id, user_id, rating };
        assert(r.spec_values() =~= vals);
        r
    }

    proof fn lemma_schema(&self) {
        let vals = self.spec_values();
        let schema = Self::spec_schema();
        assert(vals.len() == 3 && schema.len() == 3);
        assert forall|i: int| 0 <= i < vals.len() implies #[trigger] kind_of(vals[i]) == schema[i] by {
            if i == 0 {} else if i == 1 {} else {}
        }
    }
}

impl Default for CreateProductRatingRequest {
    fn default() -> (r: Self)
        ensures
            r.spec_values() == defaults(Self::spec_schema()),
    {
        let r = CreateProductRatingRequest { product_id: 0, user_id: 0, rating: 0 };
        assert(r.spec_values() =~= defaults(Self::spec_schema()));
        r
    }
}

#[derive(Clone, Debug)]
pub struct GetProductRatingRequest {
    pub rating_id: i64,
}

impl ProtoMessage for GetProductRatingRequest {
    open spec fn spec_schema() -> Seq<Kind> {
        seq![Kind::Int64]
    }

    open spec fn spec_values(&self) -> Seq<ScalarValue> {
        seq![
            ScalarValue::Int64(self.rating_id),
        ]
    }

    fn schema() -> (r: Vec<Kind>) {
        vec![Kind::Int64]
    }

    fn to_scalars(&self) -> (r: Vec<Scalar>) {
        let r = vec![
            Scalar::Int64(self.rating_id),
        ];
        assert(values_of(r@) =~= self.spec_values());
        r
    }

    fn from_scalars(v: Vec<Scalar>) -> (r: Self) {
        let ghost vals = values_of(v@);
        proof {
            assert(kind_of(vals[0]) == Kind::Int64);
        }
        let mut v = v;
        let rating_id = pop_int64(&mut v);
        let r = GetProductRatingRequest { rating_id };
        assert(r.spec_values() =~= vals);
        r
    }

    proof fn lemma_schema(&self) {
        let vals = self.spec_values();
        let schema = Self::spec_schema();
        assert(vals.len() == 1 && schema.len() == 1);
        assert forall|i: int| 0 <= i < vals.len() implies #[trigger] kind_of(vals[i]) == schema[i] by {
            assert(i == 0);
        }
    }
}

impl Default for GetProductRatingRequest {
    fn default() -> (r: Self)
        ensures
            r.spec_values() == defaults(Self::spec_schema()),
    {
        let r = GetProductRatingRequest { rating_id: 0 };
        assert(r.spec_values() =~= defaults(Self::spec_schema()));
        r
    }
}

#[derive(Clone, Debug)]
pub struct UpdateProductRatingRequest {
    pub rating_id: i64,
    pub product_id: Option<i64>,
    pub user_id: Option<i64>,
    pub rating: Option<i64>,
}

impl ProtoMessage for UpdateProductRatingRequest {
    open spec fn spec_schema() -> Seq<Kind> {
        seq![Kind::Int64, Kind::OptInt64, Kind::OptInt64, Kind::OptInt64]
    }

    open spec fn spec_values(&self) -> Seq<ScalarValue> {
        seq![
            ScalarValue::Int64(self.rating_id),
            ScalarValue::OptInt64(self.product_id),
            ScalarValue::OptInt64(self.user_id),
            ScalarValue::OptInt64(self.rating),
        ]
    }

    fn schema() -> (r: Vec<Kind>) {
        vec![Kind::Int64, Kind::OptInt64, Kind::OptInt64, Kind::OptInt64]
    }

    fn to_scalars(&self) -> (r: Vec<Scalar>) {
        let r = vec![
            Scalar::Int64(self.rating_id),
            Scalar::OptInt64(self.product_id),
            Scalar::OptInt64(self.user_id),
            Scalar::OptInt64(self.rating),
        ];
        assert(values_of(r@) =~= self.spec_values());
        r
    }

    fn from_scalars(v: Vec<Scalar>) -> (r: Self) {
        let ghost vals = values_of(v@);
        proof {
            assert(kind_of(vals[0]) == Kind::Int64);
            assert(kind_of(vals[1]) == Kind::OptInt64);
            assert(kind_of(vals[2]) == Kind::OptInt64);
            assert(kind_of(vals[3]) == Kind::OptInt64);
        }
        let mut v = v;
        let rating = pop_opt_int64(&mut v);
        let user_id = pop_opt_int64(&mut v);
        let product_id = pop_opt_int64(&mut v);
        let rating_id = pop_int64(&mut v);
        let r = UpdateProductRatingRequest { rating_id, product_id, user_id, rating };
        assert(r.spec_values() =~= vals);
        r
    }

    proof fn lemma_schema(&self) {
        let vals = self.spec_values();
        let schema = Self::spec_schema();
        assert(vals.len() == 4 && schema.len() == 4);
        assert forall|i: int| 0 <= i < vals.len() implies #[trigger] kind_of(vals[i]) == schema[i] by {
            if i == 0 {} else if i == 1 {} else if i == 2 {} else {}
        }
    }
}

impl Default for UpdateProductRatingRequest {
    fn default() -> (r: Self)
        ensures
            r.spec_values() == defaults(Self::spec_schema()),
    {
        let r = UpdateProductRatingRequest { rating_id: 0, product_id: None, user_id: None, rating: None };
        assert(r.spec_values() =~= defaults(Self::spec_schema()));
        r
    }
}

#[derive(Clone, Debug)]
pub struct DeleteProductRatingRequest {
    pub rating_id: i64,
}

impl ProtoMessage for DeleteProductRatingRequest {
    open spec fn spec_schema() -> Seq<Kind> {
        seq![Kind::Int64]
    }

    open spec fn spec_values(&self) -> Seq<ScalarValue> {
        seq![
            ScalarValue::Int64(self.rating_id),
        ]
    }

    fn schema() -> (r: Vec<Kind>) {
        vec![Kind::Int64]
    }

    fn to_scalars(&self) -> (r: Vec<Scalar>) {
        let r = vec![
            Scalar::Int64(self.rating_id),
        ];
        assert(values_of(r@) =~= self.spec_values());
        r
    }

    fn from_scalars(v: Vec<Scalar>) -> (r: Self) {
        let ghost vals = values_of(v@);
        proof {
            assert(kind_of(vals[0]) == Kind::Int64);
        }
        let mut v = v;
        let rating_id = pop_int64(&mut v);
        let r = DeleteProductRatingRequest { rating_id };
        assert(r.spec_values() =~= vals);
        r
    }

    proof fn lemma_schema(&self) {
        let vals = self.spec_values();
        let schema = Self::spec_schema();
        assert(vals.len() == 1 && schema.len() == 1);
        assert forall|i: int| 0 <= i < vals.len() implies #[trigger] kind_of(vals[i]) == schema[i] by {
            assert(i == 0);
        }
    }
}

impl Default for DeleteProductRatingRequest {
    fn default() -> (r: Self)
        ensures
            r.spec_values() == defaults(Self::spec_schema()),
    {
        let r = DeleteProductRatingRequest { rating_id: 0 };
        assert(r.spec_values() =~= defaults(Self::spec_schema()));
        r
    }
}

#[derive(Clone, Debug)]
pub struct ProductRatingResponse {
    pub rating_id: i64,
    pub product_id: i64,
    pub user_id: i64,
    pub rating: i64,
}

impl ProtoMessage for ProductRatingResponse {
    open spec fn spec_schema() -> Seq<Kind> {
        seq![Kind::Int64, Kind::Int64, Kind::Int64, Kind::Int64]
    }

    open spec fn spec_values(&self) -> Seq<ScalarValue> {
        seq![
            ScalarValue::Int64(self.rating_id),
            ScalarValue::Int64(self.product_id),
            ScalarValue::Int64(self.user_id),
            ScalarValue::Int64(self.rating),
        ]
    }

    fn schema() -> (r: Vec<Kind>) {
        vec![Kind::Int64, Kind::Int64, Kind::Int64, Kind::Int64]
    }

    fn to_scalars(&self) -> (r: Vec<Scalar>) {
        let r = vec![
            Scalar::Int64(self.rating_id),
            Scalar::Int64(self.product_id),
            Scalar::Int64(self.user_id),
            Scalar::Int64(self.rating),
        ];
        assert(values_of(r@) =~= self.spec_values());
        r
    }

    fn from_scalars(v: Vec<Scalar>) -> (r: Self) {
        let ghost vals = values_of(v@);
        proof {
            assert(kind_of(vals[0]) == Kind::Int64);
            assert(kind_of(vals[1]) == Kind::Int64);
            assert(kind_of(vals[2]) == Kind::Int64);
            assert(kind_of(vals[3]) == Kind::Int64);
        }
        let mut v = v;
        let rating = pop_int64(&mut v);
        let user_id = pop_int64(&mut v);
        let product_id = pop_int64(&mut v);
        let rating_id = pop_int64(&mut v);
        let r = ProductRatingResponse { rating_id, product_id, user_id, rating };
        assert(r.spec_values() =~= vals);
        r
    }

    proof fn lemma_schema(&self) {
        let vals = self.spec_values();
        let schema = Self::spec_schema();
        assert(vals.len() == 4 && schema.len() == 4);
        assert forall|i: int| 0 <= i < vals.len() implies #[trigger] kind_of(vals[i]) == schema[i] by {
            if i == 0 {} else if i == 1 {} else if i == 2 {} else {}
        }
    }
}

impl Default for ProductRatingResponse {
    fn default() -> (r: Self)
        ensures
            r.spec_values() == defaults(Self::spec_schema()),
    {
        let r = ProductRatingResponse { rating_id: 0, product_id: 0, user_id: 0, rating: 0 };
        assert(r.spec_values() =~= defaults(Self::spec_schema()));
        r
    }
}

#[derive(Clone, Debug)]
pub struct ProductRatingsResponse {
    pub items: Vec<ProductRatingResponse>,
}

impl ProtoList for ProductRatingsResponse {
    type Item = ProductRatingResponse;

    open spec fn spec_items(&self) -> Seq<ProductRatingResponse> {
        self.items@
    }

    fn items(&self) -> (r: &Vec<ProductRatingResponse>) {
        &self.items
    }

    fn from_items(items: Vec<ProductRatingResponse>) -> (r: Self) {
        ProductRatingsResponse { items }
    }
}

impl Default for ProductRatingsResponse {
    fn default() -> (r: Self)
        ensures
            r.spec_items() == Seq::<ProductRatingResponse>::empty(),
    {
        ProductRatingsResponse { items: Vec::new() }
    }
}

#[derive(Clone, Debug)]
pub struct CreateSizeRequest {
    pub size_name: String,
}

impl ProtoMessage for CreateSizeRequest {
    open spec fn spec_schema() -> Seq<Kind> {
        seq![Kind::Str]
    }

    open spec fn spec_values(&self) -> Seq<ScalarValue> {
        seq![
            ScalarValue::Str(self.size_name@),
        ]
    }

    fn schema() -> (r: Vec<Kind>) {
        vec![Kind::Str]
    }

    fn to_scalars(&self) -> (r: Vec<Scalar>) {
        let r = vec![
            Scalar::Str(self.size_name.clone()),
        ];
        assert(values_of(r@) =~= self.spec_values());
        r
    }

    fn from_scalars(v: Vec<Scalar>) -> (r: Self) {
        let ghost vals = values_of(v@);
        proof {
            assert(kind_of(vals[0]) == Kind::Str);
        }
        let mut v = v;
        let size_name = pop_str(&mut v);
        let r = CreateSizeRequest { size_name };
        assert(r.spec_values() =~= vals);
        r
    }

    proof fn lemma_schema(&self) {
        let vals = self.spec_values();
        let schema = Self::spec_schema();
        assert(vals.len() == 1 && schema.len() == 1);
        assert forall|i: int| 0 <= i < vals.len() implies #[trigger] kind_of(vals[i]) == schema[i] by {
            assert(i == 0);
        }
    }
}

impl Default for CreateSizeRequest {
    fn default() -> (r: Self)
        ensures
            r.spec_values() == defaults(Self::spec_schema()),
    {
        let r = CreateSizeRequest { size_name: String::new() };
        assert(r.spec_values() =~= defaults(Self::spec_schema()));
        r
    }
}

#[derive(Clone, Debug)]
pub struct GetSizeRequest {
    pub size_id: i64,
}

impl ProtoMessage for GetSizeRequest {
    open spec fn spec_schema() -> Seq<Kind> {
        seq![Kind::Int64]
    }

    open spec fn spec_values(&self) -> Seq<ScalarValue> {
        seq![
            ScalarValue::Int64(self.size_id),
        ]
    }

    fn schema() -> (r: Vec<Kind>) {
        vec![Kind::Int64]
    }

    fn to_scalars(&self) -> (r: Vec<Scalar>) {
        let r = vec![
            Scalar::Int64(self.size_id),
        ];
        assert(values_of(r@) =~= self.spec_values());
        r
    }

    fn from_scalars(v: Vec<Scalar>) -> (r: Self) {
        let ghost vals = values_of(v@);
        proof {
            assert(kind_of(vals[0]) == Kind::Int64);
        }
        let mut v = v;
        let size_id = pop_int64(&mut v);
        let r = GetSizeRequest { size_id };
        assert(r.spec_values() =~= vals);
        r
    }

    proof fn lemma_schema(&self) {
        let vals = self.spec_values();
        let schema = Self::spec_schema();
        assert(vals.len() == 1 && schema.len() == 1);
        assert forall|i: int| 0 <= i < vals.len() implies #[trigger] kind_of(vals[i]) == schema[i] by {
            assert(i == 0);
        }
    }
}

impl Default for GetSizeRequest {
    fn default() -> (r: Self)
        ensures
            r.spec_values() == defaults(Self::spec_schema()),
    {
        let r = GetSizeRequest { size_id: 0 };
        assert(r.spec_values() =~= defaults(Self::spec_schema()));
        r
    }
}

#[derive(Clone, Debug)]
pub struct UpdateSizeRequest {
    pub size_id: i64,
    pub size_name: String,
}

impl ProtoMessage for UpdateSizeRequest {
    open spec fn spec_schema() -> Seq<Kind> {
        seq![Kind::Int64, Kind::Str]
    }

    open spec fn spec_values(&self) -> Seq<ScalarValue> {
        seq![
            ScalarValue::Int64(self.size_id),
            ScalarValue::Str(self.size_name@),
        ]
    }

    fn schema() -> (r: Vec<Kind>) {
        vec![Kind::Int64, Kind::Str]
    }

    fn to_scalars(&self) -> (r: Vec<Scalar>) {
        let r = vec![
            Scalar::Int64(self.size_id),
            Scalar::Str(self.size_name.clone()),
        ];
        assert(values_of(r@) =~= self.spec_values());
        r
    }

    fn from_scalars(v: Vec<Scalar>) -> (r: Self) {
        let ghost vals = values_of(v@);
        proof {
            assert(kind_of(vals[0]) == Kind::Int64);
            assert(kind_of(vals[1]) == Kind::Str);
        }
        let mut v = v;
        let size_name = pop_str(&mut v);
        let size_id = pop_int64(&mut v);
        let r = UpdateSizeRequest { size_id, size_name };
        assert(r.spec_values() =~= vals);
        r
    }

    proof fn lemma_schema(&self) {
        let vals = self.spec_values();
        let schema = Self::spec_schema();
        assert(vals.len() == 2 && schema.len() == 2);
        assert forall|i: int| 0 <= i < vals.len() implies #[trigger] kind_of(vals[i]) == schema[i] by {
            if i == 0 {} else {}
        }
    }
}

impl Default for UpdateSizeRequest {
    fn default() -> (r: Self)
        ensures
            r.spec_values() == defaults(Self::spec_schema()),
    {
        let r = UpdateSizeRequest { size_id: 0, size_name: String::new() };
        assert(r.spec_values() =~= defaults(Self::spec_schema()));
        r
    }
}

#[derive(Clone, Debug)]
pub struct DeleteSizeRequest {
    pub size_id: i64,
}

impl ProtoMessage for DeleteSizeRequest {
    open spec fn spec_schema() -> Seq<Kind> {
        seq![Kind::Int64]
    }

    open spec fn spec_values(&self) -> Seq<ScalarValue> {
        seq![
            ScalarValue::Int64(self.size_id),
        ]
    }

    fn schema() -> (r: Vec<Kind>) {
        vec![Kind::Int64]
    }

    fn to_scalars(&self) -> (r: Vec<Scalar>) {
        let r = vec![
            Scalar::Int64(self.size_id),
        ];
        assert(values_of(r@) =~= self.spec_values());
        r
    }

    fn from_scalars(v: Vec<Scalar>) -> (r: Self) {
        let ghost vals = values_of(v@);
        proof {
            assert(kind_of(vals[0]) == Kind::Int64);
        }
        let mut v = v;
        let size_id = pop_int64(&mut v);
        let r = DeleteSizeRequest { size_id };
        assert(r.spec_values() =~= vals);
        r
    }

    proof fn lemma_schema(&self) {
        let vals = self.spec_values();
        let schema = Self::spec_schema();
        assert(vals.len() == 1 && schema.len() == 1);
        assert forall|i: int| 0 <= i < vals.len() implies #[trigger] kind_of(vals[i]) == schema[i] by {
            assert(i == 0);
        }
    }
}

impl Default for DeleteSizeRequest {
    fn default() -> (r: Self)
        ensures
            r.spec_values() == defaults(Self::spec_schema()),
    {
        let r = DeleteSizeRequest { size_id: 0 };
        assert(r.spec_values() =~= defaults(Self::spec_schema()));
        r
    }
}

#[derive(Clone, Debug)]
pub struct SizeResponse {
    pub size_id: i64,
    pub size_name: String,
}

impl ProtoMessage for SizeResponse {
    open spec fn spec_schema() -> Seq<Kind> {
        seq![Kind::Int64, Kind::Str]
    }

    open spec fn spec_values(&self) -> Seq<ScalarValue> {
        seq![
            ScalarValue::Int64(self.size_id),
            ScalarValue::Str(self.size_name@),
        ]
    }

    fn schema() -> (r: Vec<Kind>) {
        vec![Kind::Int64, Kind::Str]
    }

    fn to_scalars(&self) -> (r: Vec<Scalar>) {
        let r = vec![
            Scalar::Int64(self.size_id),
            Scalar::Str(self.size_name.clone()),
        ];
        assert(values_of(r@) =~= self.spec_values());
        r
    }

    fn from_scalars(v: Vec<Scalar>) -> (r: Self) {
        let ghost vals = values_of(v@);
        proof {
            assert(kind_of(vals[0]) == Kind::Int64);
            assert(kind_of(vals[1]) == Kind::Str);
        }
        let mut v = v;
        let size_name = pop_str(&mut v);
        let size_id = pop_int64(&mut v);
        let r = SizeResponse { size_id, size_name };
        assert(r.spec_values() =~= vals);
        r
    }

    proof fn lemma_schema(&self) {
        let vals = self.spec_values();
        let schema = Self::spec_schema();
        assert(vals.len() == 2 && schema.len() == 2);
        assert forall|i: int| 0 <= i < vals.len() implies #[trigger] kind_of(vals[i]) == schema[i] by {
            if i == 0 {} else {}
        }
    }
}

impl Default for SizeResponse {
    fn default() -> (r: Self)
        ensures
            r.spec_values() == defaults(Self::spec_schema()),
    {
        let r = SizeResponse { size_id: 0, size_name: String::new() };
        assert(r.spec_values() =~= defaults(Self::spec_schema()));
        r
    }
}

#[derive(Clone, Debug)]
pub struct SizesResponse {
    pub items: Vec<SizeResponse>,
}

impl ProtoList for SizesResponse {
    type Item = SizeResponse;

    open spec fn spec_items(&self) -> Seq<SizeResponse> {
        self.items@
    }

    fn items(&self) -> (r: &Vec<SizeResponse>) {
        &self.items
    }

    fn from_items(items: Vec<SizeResponse>) -> (r: Self) {
        SizesResponse { items }
    }
}

impl Default for SizesResponse {
    fn default() -> (r: Self)
        ensures
            r.spec_items() == Seq::<SizeResponse>::empty(),
    {
        SizesResponse { items: Vec::new() }
    }
}

#[derive(Clone, Debug)]
pub struct CreateColorRequest {
    pub color_name: String,
}

impl ProtoMessage for CreateColorRequest {
    open spec fn spec_schema() -> Seq<Kind> {
        seq![Kind::Str]
    }

    open spec fn spec_values(&self) -> Seq<ScalarValue> {
        seq![
            ScalarValue::Str(self.color_name@),
        ]
    }

    fn schema() -> (r: Vec<Kind>) {
        vec![Kind::Str]
    }

    fn to_scalars(&self) -> (r: Vec<Scalar>) {
        let r = vec![
            Scalar::Str(self.color_name.clone()),
        ];
        assert(values_of(r@) =~= self.spec_values());
        r
    }

    fn from_scalars(v: Vec<Scalar>) -> (r: Self) {
        let ghost vals = values_of(v@);
        proof {
            assert(kind_of(vals[0]) == Kind::Str);
        }
        let mut v = v;
        let color_name = pop_str(&mut v);
        let r = CreateColorRequest { color_name };
        assert(r.spec_values() =~= vals);
        r
    }

    proof fn lemma_schema(&self) {
        let vals = self.spec_values();
        let schema = Self::spec_schema();
        assert(vals.len() == 1 && schema.len() == 1);
        assert forall|i: int| 0 <= i < vals.len() implies #[trigger] kind_of(vals[i]) == schema[i] by {
            assert(i == 0);
        }
    }
}

impl Default for CreateColorRequest {
    fn default() -> (r: Self)
        ensures
            r.spec_values() == defaults(Self::spec_schema()),
    {
        let r = CreateColorRequest { color_name: String::new() };
        assert(r.spec_values() =~= defaults(Self::spec_schema()));
        r
    }
}

#[derive(Clone, Debug)]
pub struct GetColorRequest {
    pub color_id: i64,
}

impl ProtoMessage for GetColorRequest {
    open spec fn spec_schema() -> Seq<Kind> {
        seq![Kind::Int64]
    }

    open spec fn spec_values(&self) -> Seq<ScalarValue> {
        seq![
            ScalarValue::Int64(self.color_id),
        ]
    }

    fn schema() -> (r: Vec<Kind>) {
        vec![Kind::Int64]
    }

    fn to_scalars(&self) -> (r: Vec<Scalar>) {
        let r = vec![
            Scalar::Int64(self.color_id),
        ];
        assert(values_of(r@) =~= self.spec_values());
        r
    }

    fn from_scalars(v: Vec<Scalar>) -> (r: Self) {
        let ghost vals = values_of(v@);
        proof {
            assert(kind_of(vals[0]) == Kind::Int64);
        }
        let mut v = v;
        let color_id = pop_int64(&mut v);
        let r = GetColorRequest { color_id };
        assert(r.spec_values() =~= vals);
        r
    }

    proof fn lemma_schema(&self) {
        let vals = self.spec_values();
        let schema = Self::spec_schema();
        assert(vals.len() == 1 && schema.len() == 1);
        assert forall|i: int| 0 <= i < vals.len() implies #[trigger] kind_of(vals[i]) == schema[i] by {
            assert(i == 0);
        }
    }
}

impl Default for GetColorRequest {
    fn default() -> (r: Self)
        ensures
            r.spec_values() == defaults(Self::spec_schema()),
    {
        let r = GetColorRequest { color_id: 0 };
        assert(r.spec_values() =~= defaults(Self::spec_schema()));
        r
    }
}

#[derive(Clone, Debug)]
pub struct UpdateColorRequest {
    pub color_id: i64,
    pub color_name: String,
}

impl ProtoMessage for UpdateColorRequest {
    open spec fn spec_schema() -> Seq<Kind> {
        seq![Kind::Int64, Kind::Str]
    }

    open spec fn spec_values(&self) -> Seq<ScalarValue> {
        seq![
            ScalarValue::Int64(self.color_id),
            ScalarValue::Str(self.color_name@),
        ]
    }

    fn schema() -> (r: Vec<Kind>) {
        vec![Kind::Int64, Kind::Str]
    }

    fn to_scalars(&self) -> (r: Vec<Scalar>) {
        let r = vec![
            Scalar::Int64(self.color_id),
            Scalar::Str(self.color_name.clone()),
        ];
        assert(values_of(r@) =~= self.spec_values());
        r
    }

    fn from_scalars(v: Vec<Scalar>) -> (r: Self) {
        let ghost vals = values_of(v@);
        proof {
            assert(kind_of(vals[0]) == Kind::Int64);
            assert(kind_of(vals[1]) == Kind::Str);
        }
        let mut v = v;
        let color_name = pop_str(&mut v);
        let color_id = pop_int64(&mut v);
        let r = UpdateColorRequest { color_id, color_name };
        assert(r.spec_values() =~= vals);
        r
    }

    proof fn lemma_schema(&self) {
        let vals = self.spec_values();
        let schema = Self::spec_schema();
        assert(vals.len() == 2 && schema.len() == 2);
        assert forall|i: int| 0 <= i < vals.len() implies #[trigger] kind_of(vals[i]) == schema[i] by {
            if i == 0 {} else {}
        }
    }
}

impl Default for UpdateColorRequest {
    fn default() -> (r: Self)
        ensures
            r.spec_values() == defaults(Self::spec_schema()),
    {
        let r = UpdateColorRequest { color_id: 0, color_name: String::new() };
        assert(r.spec_values() =~= defaults(Self::spec_schema()));
        r
    }
}

#[derive(Clone, Debug)]
pub struct DeleteColorRequest {
    pub color_id: i64,
}

impl ProtoMessage for DeleteColorRequest {
    open spec fn spec_schema() -> Seq<Kind> {
        seq![Kind::Int64]
    }

    open spec fn spec_values(&self) -> Seq<ScalarValue> {
        seq![
            ScalarValue::Int64(self.color_id),
        ]
    }

    fn schema() -> (r: Vec<Kind>) {
        vec![Kind::Int64]
    }

    fn to_scalars(&self) -> (r: Vec<Scalar>) {
        let r = vec![
            Scalar::Int64(self.color_id),
        ];
        assert(values_of(r@) =~= self.spec_values());
        r
    }

    fn from_scalars(v: Vec<Scalar>) -> (r: Self) {
        let ghost vals = values_of(v@);
        proof {
            assert(kind_of(vals[0]) == Kind::Int64);
        }
        let mut v = v;
        let color_id = pop_int64(&mut v);
        let r = DeleteColorRequest { color_id };
        assert(r.spec_values() =~= vals);
        r
    }

    proof fn lemma_schema(&self) {
        let vals = self.spec_values();
        let schema = Self::spec_schema();
        assert(vals.len() == 1 && schema.len() == 1);
        assert forall|i: int| 0 <= i < vals.len() implies #[trigger] kind_of(vals[i]) == schema[i] by {
            assert(i == 0);
        }
    }
}

impl Default for DeleteColorRequest {
    fn default() -> (r: Self)
        ensures
            r.spec_values() == defaults(Self::spec_schema()),
    {
        let r = DeleteColorRequest { color_id: 0 };
        assert(r.spec_values() =~= defaults(Self::spec_schema()));
        r
    }
}

#[derive(Clone, Debug)]
pub struct ColorResponse {
    pub color_id: i64,
    pub color_name: String,
}

impl ProtoMessage for ColorResponse {
    open spec fn spec_schema() -> Seq<Kind> {
        seq![Kind::Int64, Kind::Str]
    }

    open spec fn spec_values(&self) -> Seq<ScalarValue> {
        seq![
            ScalarValue::Int64(self.color_id),
            ScalarValue::Str(self.color_name@),
        ]
    }

    fn schema() -> (r: Vec<Kind>) {
        vec![Kind::Int64, Kind::Str]
    }

    fn to_scalars(&self) -> (r: Vec<Scalar>) {
        let r = vec![
            Scalar::Int64(self.color_id),
            Scalar::Str(self.color_name.clone()),
        ];
        assert(values_of(r@) =~= self.spec_values());
        r
    }

    fn from_scalars(v: Vec<Scalar>) -> (r: Self) {
        let ghost vals = values_of(v@);
        proof {
            assert(kind_of(vals[0]) == Kind::Int64);
            assert(kind_of(vals[1]) == Kind::Str);
        }
        let mut v = v;
        let color_name = pop_str(&mut v);
        let color_id = pop_int64(&mut v);
        let r = ColorResponse { color_id, color_name };
        assert(r.spec_values() =~= vals);
        r
    }

    proof fn lemma_schema(&self) {
        let vals = self.spec_values();
        let schema = Self::spec_schema();
        assert(vals.len() == 2 && schema.len() == 2);
        assert forall|i: int| 0 <= i < vals.len() implies #[trigger] kind_of(vals[i]) == schema[i] by {
            if i == 0 {} else {}
        }
    }
}

impl Default for ColorResponse {
    fn default() -> (r: Self)
        ensures
            r.spec_values() == defaults(Self::spec_schema()),
    {
        let r = ColorResponse { color_id: 0, color_name: String::new() };
        assert(r.spec_values() =~= defaults(Self::spec_schema()));
        r
    }
}

#[derive(Clone, Debug)]
pub struct ColorsResponse {
    pub items: Vec<ColorResponse>,
}

impl ProtoList for ColorsResponse {
    type Item = ColorResponse;

    open spec fn spec_items(&self) -> Seq<ColorResponse> {
        self.items@
    }

    fn items(&self) -> (r: &Vec<ColorResponse>) {
        &self.items
    }

    fn from_items(items: Vec<ColorResponse>) -> (r: Self) {
        ColorsResponse { items }
    }
}

impl Default for ColorsResponse {
    fn default() -> (r: Self)
        ensures
            r.spec_items() == Seq::<ColorResponse>::empty(),
    {
        ColorsResponse { items: Vec::new() }
    }
}

#[derive(Clone, Debug)]
pub struct CreateProductCategoryMappingRequest {
    pub product_id: i64,
    pub category_id: i64,
}

impl ProtoMessage for CreateProductCategoryMappingRequest {
    open spec fn spec_schema() -> Seq<Kind> {
        seq![Kind::Int64, Kind::Int64]
    }

    open spec fn spec_values(&self) -> Seq<ScalarValue> {
        seq![
            ScalarValue::Int64(self.product_id),
            ScalarValue::Int64(self.category_id),
        ]
    }

    fn schema() -> (r: Vec<Kind>) {
        vec![Kind::Int64, Kind::Int64]
    }

    fn to_scalars(&self) -> (r: Vec<Scalar>) {
        let r = vec![
            Scalar::Int64(self.product_id),
            Scalar::Int64(self.category_id),
        ];
        assert(values_of(r@) =~= self.spec_values());
        r
    }

    fn from_scalars(v: Vec<Scalar>) -> (r: Self) {
        let ghost vals = values_of(v@);
        proof {
            assert(kind_of(vals[0]) == Kind::Int64);
            assert(kind_of(vals[1]) == Kind::Int64);
        }
        let mut v = v;
        let category_id = pop_int64(&mut v);
        let product_id = pop_int64(&mut v);
        let r = CreateProductCategoryMappingRequest { product_id, category_id };
        assert(r.spec_values() =~= vals);
        r
    }

    proof fn lemma_schema(&self) {
        let vals = self.spec_values();
        let schema = Self::spec_schema();
        assert(vals.len() == 2 && schema.len() == 2);
        assert forall|i: int| 0 <= i < vals.len() implies #[trigger] kind_of(vals[i]) == schema[i] by {
            if i == 0 {} else {}
        }
    }
}

impl Default for CreateProductCategoryMappingRequest {
    fn default() -> (r: Self)
        ensures
            r.spec_values() == defaults(Self::spec_schema()),
    {
        let r = CreateProductCategoryMappingRequest { product_id: 0, category_id: 0 };
        assert(r.spec_values() =~= defaults(Self::spec_schema()));
        r
    }
}

#[derive(Clone, Debug)]
pub struct GetProductCategoryMappingRequest {
    pub product_id: i64,
    pub category_id: i64,
}

impl ProtoMessage for GetProductCategoryMappingRequest {
    open spec fn spec_schema() -> Seq<Kind> {
        seq![Kind::Int64, Kind::Int64]
    }

    open spec fn spec_values(&self) -> Seq<ScalarValue> {
        seq![
            ScalarValue::Int64(self.product_id),
            ScalarValue::Int64(self.category_id),
        ]
    }

    fn schema() -> (r: Vec<Kind>) {
        vec![Kind::Int64, Kind::Int64]
    }

    fn to_scalars(&self) -> (r: Vec<Scalar>) {
        let r = vec![
            Scalar::Int64(self.product_id),
            Scalar::Int64(self.category_id),
        ];
        assert(values_of(r@) =~= self.spec_values());
        r
    }

    fn from_scalars(v: Vec<Scalar>) -> (r: Self) {
        let ghost vals = values_of(v@);
        proof {
            assert(kind_of(vals[0]) == Kind::Int64);
            assert(kind_of(vals[1]) == Kind::Int64);
        }
        let mut v = v;
        let category_id = pop_int64(&mut v);
        let product_id = pop_int64(&mut v);
        let r = GetProductCategoryMappingRequest { product_id, category_id };
        assert(r.spec_values() =~= vals);
        r
    }

    proof fn lemma_schema(&self) {
        let vals = self.spec_values();
        let schema = Self::spec_schema();
        assert(vals.len() == 2 && schema.len() == 2);
        assert forall|i: int| 0 <= i < vals.len() implies #[trigger] kind_of(vals[i]) == schema[i] by {
            if i == 0 {} else {}
        }
    }
}

impl Default for GetProductCategoryMappingRequest {
    fn default() -> (r: Self)
        ensures
            r.spec_values() == defaults(Self::spec_schema()),
    {
        let r = GetProductCategoryMappingRequest { product_id: 0, category_id: 0 };
        assert(r.spec_values() =~= defaults(Self::spec_schema()));
        r
    }
}

#[derive(Clone, Debug)]
pub struct DeleteProductCategoryMappingRequest {
    pub product_id: i64,
    pub category_id: i64,
}

impl ProtoMessage for DeleteProductCategoryMappingRequest {
    open spec fn spec_schema() -> Seq<Kind> {
        seq![Kind::Int64, Kind::Int64]
    }

    open spec fn spec_values(&self) -> Seq<ScalarValue> {
        seq![
            ScalarValue::Int64(self.product_id),
            ScalarValue::Int64(self.category_id),
        ]
    }

    fn schema() -> (r: Vec<Kind>) {
        vec![Kind::Int64, Kind::Int64]
    }

    fn to_scalars(&self) -> (r: Vec<Scalar>) {
        let r = vec![
            Scalar::Int64(self.product_id),
            Scalar::Int64(self.category_id),
        ];
        assert(values_of(r@) =~= self.spec_values());
        r
    }

    fn from_scalars(v: Vec<Scalar>) -> (r: Self) {
        let ghost vals = values_of(v@);
        proof {
            assert(kind_of(vals[0]) == Kind::Int64);
            assert(kind_of(vals[1]) == Kind::Int64);
        }
        let mut v = v;
        let category_id = pop_int64(&mut v);
        let product_id = pop_int64(&mut v);
        let r = DeleteProductCategoryMappingRequest { product_id, category_id };
        assert(r.spec_values() =~= vals);
        r
    }

    proof fn lemma_schema(&self) {
        let vals = self.spec_values();
        let schema = Self::spec_schema();
        assert(vals.len() == 2 && schema.len() == 2);
        assert forall|i: int| 0 <= i < vals.len() implies #[trigger] kind_of(vals[i]) == schema[i] by {
            if i == 0 {} else {}
        }
    }
}

impl Default for DeleteProductCategoryMappingRequest {
    fn default() -> (r: Self)
        ensures
            r.spec_values() == defaults(Self::spec_schema()),
    {
        let r = DeleteProductCategoryMappingRequest { product_id: 0, category_id: 0 };
        assert(r.spec_values() =~= defaults(Self::spec_schema()));
        r
    }
}

#[derive(Clone, Debug)]
pub struct ProductCategoryMappingResponse {
    pub product_id: i64,
    pub category_id: i64,
}

impl ProtoMessage for ProductCategoryMappingResponse {
    open spec fn spec_schema() -> Seq<Kind> {
        seq![Kind::Int64, Kind::Int64]
    }

    open spec fn spec_values(&self) -> Seq<ScalarValue> {
        seq![
            ScalarValue::Int64(self.product_id),
            ScalarValue::Int64(self.category_id),
        ]
    }

    fn schema() -> (r: Vec<Kind>) {
        vec![Kind::Int64, Kind::Int64]
    }

    fn to_scalars(&self) -> (r: Vec<Scalar>) {
        let r = vec![
            Scalar::Int64(self.product_id),
            Scalar::Int64(self.category_id),
        ];
        assert(values_of(r@) =~= self.spec_values());
        r
    }

    fn from_scalars(v: Vec<Scalar>) -> (r: Self) {
        let ghost vals = values_of(v@);
        proof {
            assert(kind_of(vals[0]) == Kind::Int64);
            assert(kind_of(vals[1]) == Kind::Int64);
        }
        let mut v = v;
        let category_id = pop_int64(&mut v);
        let product_id = pop_int64(&mut v);
        let r = ProductCategoryMappingResponse { product_id, category_id };
        assert(r.spec_values() =~= vals);
        r
    }

    proof fn lemma_schema(&self) {
        let vals = self.spec_values();
        let schema = Self::spec_schema();
        assert(vals.len() == 2 && schema.len() == 2);
        assert forall|i: int| 0 <= i < vals.len() implies #[trigger] kind_of(vals[i]) == schema[i] by {
            if i == 0 {} else {}
        }
    }
}

impl Default for ProductCategoryMappingResponse {
    fn default() -> (r: Self)
        ensures
            r.spec_values() == defaults(Self::spec_schema()),
    {
        let r = ProductCategoryMappingResponse { product_id: 0, category_id: 0 };
        assert(r.spec_values() =~= defaults(Self::spec_schema()));
        r
    }
}

#[derive(Clone, Debug)]
pub struct ProductCategoryMappingsResponse {
    pub items: Vec<ProductCategoryMappingResponse>,
}

impl ProtoList for ProductCategoryMappingsResponse {
    type Item = ProductCategoryMappingResponse;

    open spec fn spec_items(&self) -> Seq<ProductCategoryMappingResponse> {
        self.items@
    }

    fn items(&self) -> (r: &Vec<ProductCategoryMappingResponse>) {
        &self.items
    }

    fn from_items(items: Vec<ProductCategoryMappingResponse>) -> (r: Self) {
        ProductCategoryMappingsResponse { items }
    }
}

impl Default for ProductCategoryMappingsResponse {
    fn default() -> (r: Self)
        ensures
            r.spec_items() == Seq::<ProductCategoryMappingResponse>::empty(),
    {
        ProductCategoryMappingsResponse { items: Vec::new() }
    }
}

#[derive(Clone, Debug)]
pub struct CreateProductAttributeMappingRequest {
    pub product_id: i64,
    pub attribute_id: i64,
}

impl ProtoMessage for CreateProductAttributeMappingRequest {
    open spec fn spec_schema() -> Seq<Kind> {
        seq![Kind::Int64, Kind::Int64]
    }

    open spec fn spec_values(&self) -> Seq<ScalarValue> {
        seq![
            ScalarValue::Int64(self.product_id),
            ScalarValue::Int64(self.attribute_id),
        ]
    }

    fn schema() -> (r: Vec<Kind>) {
        vec![Kind::Int64, Kind::Int64]
    }

    fn to_scalars(&self) -> (r: Vec<Scalar>) {
        let r = vec![
            Scalar::Int64(self.product_id),
            Scalar::Int64(self.attribute_id),
        ];
        assert(values_of(r@) =~= self.spec_values());
        r
    }

    fn from_scalars(v: Vec<Scalar>) -> (r: Self) {
        let ghost vals = values_of(v@);
        proof {
            assert(kind_of(vals[0]) == Kind::Int64);
            assert(kind_of(vals[1]) == Kind::Int64);
        }
        let mut v = v;
        let attribute_id = pop_int64(&mut v);
        let product_id = pop_int64(&mut v);
        let r = CreateProductAttributeMappingRequest { product_id, attribute_id };
        assert(r.spec_values() =~= vals);
        r
    }

    proof fn lemma_schema(&self) {
        let vals = self.spec_values();
        let schema = Self::spec_schema();
        assert(vals.len() == 2 && schema.len() == 2);
        assert forall|i: int| 0 <= i < vals.len() implies #[trigger] kind_of(vals[i]) == schema[i] by {
            if i == 0 {} else {}
        }
    }
}

impl Default for CreateProductAttributeMappingRequest {
    fn default() -> (r: Self)
        ensures
            r.spec_values() == defaults(Self::spec_schema()),
    {
        let r = CreateProductAttributeMappingRequest { product_id: 0, attribute_id: 0 };
        assert(r.spec_values() =~= defaults(Self::spec_schema()));
        r
    }
}

#[derive(Clone, Debug)]
pub struct GetProductAttributeMappingRequest {
    pub product_id: i64,
    pub attribute_id: i64,
}

impl ProtoMessage for GetProductAttributeMappingRequest {
    open spec fn spec_schema() -> Seq<Kind> {
        seq![Kind::Int64, Kind::Int64]
    }

    open spec fn spec_values(&self) -> Seq<ScalarValue> {
        seq![
            ScalarValue::Int64(self.product_id),
            ScalarValue::Int64(self.attribute_id),
        ]
    }

    fn schema() -> (r: Vec<Kind>) {
        vec![Kind::Int64, Kind::Int64]
    }

    fn to_scalars(&self) -> (r: Vec<Scalar>) {
        let r = vec![
            Scalar::Int64(self.product_id),
            Scalar::Int64(self.attribute_id),
        ];
        assert(values_of(r@) =~= self.spec_values());
        r
    }

    fn from_scalars(v: Vec<Scalar>) -> (r: Self) {
        let ghost vals = values_of(v@);
        proof {
            assert(kind_of(vals[0]) == Kind::Int64);
            assert(kind_of(vals[1]) == Kind::Int64);
        }
        let mut v = v;
        let attribute_id = pop_int64(&mut v);
        let product_id = pop_int64(&mut v);
        let r = GetProductAttributeMappingRequest { product_id, attribute_id };
        assert(r.spec_values() =~= vals);
        r
    }

    proof fn lemma_schema(&self) {
        let vals = self.spec_values();
        let schema = Self::spec_schema();
        assert(vals.len() == 2 && schema.len() == 2);
        assert forall|i: int| 0 <= i < vals.len() implies #[trigger] kind_of(vals[i]) == schema[i] by {
            if i == 0 {} else {}
        }
    }
}

impl Default for GetProductAttributeMappingRequest {
    fn default() -> (r: Self)
        ensures
            r.spec_values() == defaults(Self::spec_schema()),
    {
        let r = GetProductAttributeMappingRequest { product_id: 0, attribute_id: 0 };
        assert(r.spec_values() =~= defaults(Self::spec_schema()));
        r
    }
}

#[derive(Clone, Debug)]
pub struct DeleteProductAttributeMappingRequest {
    pub product_id: i64,
    pub attribute_id: i64,
}

impl ProtoMessage for DeleteProductAttributeMappingRequest {
    open spec fn spec_schema() -> Seq<Kind> {
        seq![Kind::Int64, Kind::Int64]
    }

    open spec fn spec_values(&self) -> Seq<ScalarValue> {
        seq![
            ScalarValue::Int64(self.product_id),
            ScalarValue::Int64(self.attribute_id),
        ]
    }

    fn schema() -> (r: Vec<Kind>) {
        vec![Kind::Int64, Kind::Int64]
    }

    fn to_scalars(&self) -> (r: Vec<Scalar>) {
        let r = vec![
            Scalar::Int64(self.product_id),
            Scalar::Int64(self.attribute_id),
        ];
        assert(values_of(r@) =~= self.spec_values());
        r
    }

    fn from_scalars(v: Vec<Scalar>) -> (r: Self) {
        let ghost vals = values_of(v@);
        proof {
            assert(kind_of(vals[0]) == Kind::Int64);
            assert(kind_of(vals[1]) == Kind::Int64);
        }
        let mut v = v;
        let attribute_id = pop_int64(&mut v);
        let product_id = pop_int64(&mut v);
        let r = DeleteProductAttributeMappingRequest { product_id, attribute_id };
        assert(r.spec_values() =~= vals);
        r
    }

    proof fn lemma_schema(&self) {
        let vals = self.spec_values();
        let schema = Self::spec_schema();
        assert(vals.len() == 2 && schema.len() == 2);
        assert forall|i: int| 0 <= i < vals.len() implies #[trigger] kind_of(vals[i]) == schema[i] by {
            if i == 0 {} else {}
        }
    }
}

impl Default for DeleteProductAttributeMappingRequest {
    fn default() -> (r: Self)
        ensures
            r.spec_values() == defaults(Self::spec_schema()),
    {
        let r = DeleteProductAttributeMappingRequest { product_id: 0, attribute_id: 0 };
        assert(r.spec_values() =~= defaults(Self::spec_schema()));
        r
    }
}

#[derive(Clone, Debug)]
pub struct ProductAttributeMappingResponse {
    pub product_id: i64,
    pub attribute_id: i64,
}

impl ProtoMessage for ProductAttributeMappingResponse {
    open spec fn spec_schema() -> Seq<Kind> {
        seq![Kind::Int64, Kind::Int64]
    }

    open spec fn spec_values(&self) -> Seq<ScalarValue> {
        seq![
            ScalarValue::Int64(self.product_id),
            ScalarValue::Int64(self.attribute_id),
        ]
    }

    fn schema() -> (r: Vec<Kind>) {
        vec![Kind::Int64, Kind::Int64]
    }

    fn to_scalars(&self) -> (r: Vec<Scalar>) {
        let r = vec![
            Scalar::Int64(self.product_id),
            Scalar::Int64(self.attribute_id),
        ];
        assert(values_of(r@) =~= self.spec_values());
        r
    }

    fn from_scalars(v: Vec<Scalar>) -> (r: Self) {
        let ghost vals = values_of(v@);
        proof {
            assert(kind_of(vals[0]) == Kind::Int64);
            assert(kind_of(vals[1]) == Kind::Int64);
        }
        let mut v = v;
        let attribute_id = pop_int64(&mut v);
        let product_id = pop_int64(&mut v);
        let r = ProductAttributeMappingResponse { product_id, attribute_id };
        assert(r.spec_values() =~= vals);
        r
    }

    proof fn lemma_schema(&self) {
        let vals = self.spec_values();
        let schema = Self::spec_schema();
        assert(vals.len() == 2 && schema.len() == 2);
        assert forall|i: int| 0 <= i < vals.len() implies #[trigger] kind_of(vals[i]) == schema[i] by {
            if i == 0 {} else {}
        }
    }
}

impl Default for ProductAttributeMappingResponse {
    fn default() -> (r: Self)
        ensures
            r.spec_values() == defaults(Self::spec_schema()),
    {
        let r = ProductAttributeMappingResponse { product_id: 0, attribute_id: 0 };
        assert(r.spec_values() =~= defaults(Self::spec_schema()));
        r
    }
}

#[derive(Clone, Debug)]
pub struct ProductAttributeMappingsResponse {
    pub items: Vec<ProductAttributeMappingResponse>,
}

impl ProtoList for ProductAttributeMappingsResponse {
    type Item = ProductAttributeMappingResponse;

    open spec fn spec_items(&self) -> Seq<ProductAttributeMappingResponse> {
        self.items@
    }

    fn items(&self) -> (r: &Vec<ProductAttributeMappingResponse>) {
        &self.items
    }

    fn from_items(items: Vec<ProductAttributeMappingResponse>) -> (r: Self) {
        ProductAttributeMappingsResponse { items }
    }
}

impl Default for ProductAttributeMappingsResponse {
    fn default() -> (r: Self)
        ensures
            r.spec_items() == Seq::<ProductAttributeMappingResponse>::empty(),
    {
        ProductAttributeMappingsResponse { items: Vec::new() }
    }
}

#[derive(Clone, Debug)]
pub struct CreateUserRoleMappingRequest {
    pub user_id: i64,
    pub role_id: i64,
}

impl ProtoMessage for CreateUserRoleMappingRequest {
    open spec fn spec_schema() -> Seq<Kind> {
        seq![Kind::Int64, Kind::Int64]
    }

    open spec fn spec_values(&self) -> Seq<ScalarValue> {
        seq![
            ScalarValue::Int64(self.user_id),
            ScalarValue::Int64(self.role_id),
        ]
    }

    fn schema() -> (r: Vec<Kind>) {
        vec![Kind::Int64, Kind::Int64]
    }

    fn to_scalars(&self) -> (r: Vec<Scalar>) {
        let r = vec![
            Scalar::Int64(self.user_id),
            Scalar::Int64(self.role_id),
        ];
        assert(values_of(r@) =~= self.spec_values());
        r
    }

    fn from_scalars(v: Vec<Scalar>) -> (r: Self) {
        let ghost vals = values_of(v@);
        proof {
            assert(kind_of(vals[0]) == Kind::Int64);
            assert(kind_of(vals[1]) == Kind::Int64);
        }
        let mut v = v;
        let role_id = pop_int64(&mut v);
        let user_id = pop_int64(&mut v);
        let r = CreateUserRoleMappingRequest { user_id, role_id };
        assert(r.spec_values() =~= vals);
        r
    }

    proof fn lemma_schema(&self) {
        let vals = self.spec_values();
        let schema = Self::spec_schema();
        assert(vals.len() == 2 && schema.len() == 2);
        assert forall|i: int| 0 <= i < vals.len() implies #[trigger] kind_of(vals[i]) == schema[i] by {
            if i == 0 {} else {}
        }
    }
}

impl Default for CreateUserRoleMappingRequest {
    fn default() -> (r: Self)
        ensures
            r.spec_values() == defaults(Self::spec_schema()),
    {
        let r = CreateUserRoleMappingRequest { user_id: 0, role_id: 0 };
        assert(r.spec_values() =~= defaults(Self::spec_schema()));
        r
    }
}

#[derive(Clone, Debug)]
pub struct GetUserRoleMappingRequest {
    pub user_id: i64,
    pub role_id: i64,
}

impl ProtoMessage for GetUserRoleMappingRequest {
    open spec fn spec_schema() -> Seq<Kind> {
        seq![Kind::Int64, Kind::Int64]
    }

    open spec fn spec_values(&self) -> Seq<ScalarValue> {
        seq![
            ScalarValue::Int64(self.user_id),
            ScalarValue::Int64(self.role_id),
        ]
    }

    fn schema() -> (r: Vec<Kind>) {
        vec![Kind::Int64, Kind::Int64]
    }

    fn to_scalars(&self) -> (r: Vec<Scalar>) {
        let r = vec![
            Scalar::Int64(self.user_id),
            Scalar::Int64(self.role_id),
        ];
        assert(values_of(r@) =~= self.spec_values());
        r
    }

    fn from_scalars(v: Vec<Scalar>) -> (r: Self) {
        let ghost vals = values_of(v@);
        proof {
            assert(kind_of(vals[0]) == Kind::Int64);
            assert(kind_of(vals[1]) == Kind::Int64);
        }
        let mut v = v;
        let role_id = pop_int64(&mut v);
        let user_id = pop_int64(&mut v);
        let r = GetUserRoleMappingRequest { user_id, role_id };
        assert(r.spec_values() =~= vals);
        r
    }

    proof fn lemma_schema(&self) {
        let vals = self.spec_values();
        let schema = Self::spec_schema();
        assert(vals.len() == 2 && schema.len() == 2);
        assert forall|i: int| 0 <= i < vals.len() implies #[trigger] kind_of(vals[i]) == schema[i] by {
            if i == 0 {} else {}
        }
    }
}

impl Default for GetUserRoleMappingRequest {
    fn default() -> (r: Self)
        ensures
            r.spec_values() == defaults(Self::spec_schema()),
    {
        let r = GetUserRoleMappingRequest { user_id: 0, role_id: 0 };
        assert(r.spec_values() =~= defaults(Self::spec_schema()));
        r
    }
}

#[derive(Clone, Debug)]
pub struct DeleteUserRoleMappingRequest {
    pub user_id: i64,
    pub role_id: i64,
}

impl ProtoMessage for DeleteUserRoleMappingRequest {
    open spec fn spec_schema() -> Seq<Kind> {
        seq![Kind::Int64, Kind::Int64]
    }

    open spec fn spec_values(&self) -> Seq<ScalarValue> {
        seq![
            ScalarValue::Int64(self.user_id),
            ScalarValue::Int64(self.role_id),
        ]
    }

    fn schema() -> (r: Vec<Kind>) {
        vec![Kind::Int64, Kind::Int64]
    }

    fn to_scalars(&self) -> (r: Vec<Scalar>) {
        let r = vec![
            Scalar::Int64(self.user_id),
            Scalar::Int64(self.role_id),
        ];
        assert(values_of(r@) =~= self.spec_values());
        r
    }

    fn from_scalars(v: Vec<Scalar>) -> (r: Self) {
        let ghost vals = values_of(v@);
        proof {
            assert(kind_of(vals[0]) == Kind::Int64);
            assert(kind_of(vals[1]) == Kind::Int64);
        }
        let mut v = v;
        let role_id = pop_int64(&mut v);
        let user_id = pop_int64(&mut v);
        let r = DeleteUserRoleMappingRequest { user_id, role_id };
        assert(r.spec_values() =~= vals);
        r
    }

    proof fn lemma_schema(&self) {
        let vals = self.spec_values();
        let schema = Self::spec_schema();
        assert(vals.len() == 2 && schema.len() == 2);
        assert forall|i: int| 0 <= i < vals.len() implies #[trigger] kind_of(vals[i]) == schema[i] by {
            if i == 0 {} else {}
        }
    }
}

impl Default for DeleteUserRoleMappingRequest {
    fn default() -> (r: Self)
        ensures
            r.spec_values() == defaults(Self::spec_schema()),
    {
        let r = DeleteUserRoleMappingRequest { user_id: 0, role_id: 0 };
        assert(r.spec_values() =~= defaults(Self::spec_schema()));
        r
    }
}

#[derive(Clone, Debug)]
pub struct UserRoleMappingResponse {
    pub user_id: i64,
    pub role_id: i64,
}

impl ProtoMessage for UserRoleMappingResponse {
    open spec fn spec_schema() -> Seq<Kind> {
        seq![Kind::Int64, Kind::Int64]
    }

    open spec fn spec_values(&self) -> Seq<ScalarValue> {
        seq![
            ScalarValue::Int64(self.user_id),
            ScalarValue::Int64(self.role_id),
        ]
    }

    fn schema() -> (r: Vec<Kind>) {
        vec![Kind::Int64, Kind::Int64]
    }

    fn to_scalars(&self) -> (r: Vec<Scalar>) {
        let r = vec![
            Scalar::Int64(self.user_id),
            Scalar::Int64(self.role_id),
        ];
        assert(values_of(r@) =~= self.spec_values());
        r
    }

    fn from_scalars(v: Vec<Scalar>) -> (r: Self) {
        let ghost vals = values_of(v@);
        proof {
            assert(kind_of(vals[0]) == Kind::Int64);
            assert(kind_of(vals[1]) == Kind::Int64);
        }
        let mut v = v;
        let role_id = pop_int64(&mut v);
        let user_id = pop_int64(&mut v);
        let r = UserRoleMappingResponse { user_id, role_id };
        assert(r.spec_values() =~= vals);
        r
    }

    proof fn lemma_schema(&self) {
        let vals = self.spec_values();
        let schema = Self::spec_schema();
        assert(vals.len() == 2 && schema.len() == 2);
        assert forall|i: int| 0 <= i < vals.len() implies #[trigger] kind_of(vals[i]) == schema[i] by {
            if i == 0 {} else {}
        }
    }
}

impl Default for UserRoleMappingResponse {
    fn default() -> (r: Self)
        ensures
            r.spec_values() == defaults(Self::spec_schema()),
    {
        let r = UserRoleMappingResponse { user_id: 0, role_id: 0 };
        assert(r.spec_values() =~= defaults(Self::spec_schema()));
        r
    }
}

#[derive(Clone, Debug)]
pub struct UserRoleMappingsResponse {
    pub items: Vec<UserRoleMappingResponse>,
}

impl ProtoList for UserRoleMappingsResponse {
    type Item = UserRoleMappingResponse;

    open spec fn spec_items(&self) -> Seq<UserRoleMappingResponse> {
        self.items@
    }

    fn items(&self) -> (r: &Vec<UserRoleMappingResponse>) {
        &self.items
    }

    fn from_items(items: Vec<UserRoleMappingResponse>) -> (r: Self) {
        UserRoleMappingsResponse { items }
    }
}

impl Default for UserRoleMappingsResponse {
    fn default() -> (r: Self)
        ensures
            r.spec_items() == Seq::<UserRoleMappingResponse>::empty(),
    {
        UserRoleMappingsResponse { items: Vec::new() }
    }
}

#[derive(Clone, Debug)]
pub struct CreateProductSizeMappingRequest {
    pub product_id: i64,
    pub size_id: i64,
}

impl ProtoMessage for CreateProductSizeMappingRequest {
    open spec fn spec_schema() -> Seq<Kind> {
        seq![Kind::Int64, Kind::Int64]
    }

    open spec fn spec_values(&self) -> Seq<ScalarValue> {
        seq![
            ScalarValue::Int64(self.product_id),
            ScalarValue::Int64(self.size_id),
        ]
    }

    fn schema() -> (r: Vec<Kind>) {
        vec![Kind::Int64, Kind::Int64]
    }

    fn to_scalars(&self) -> (r: Vec<Scalar>) {
        let r = vec![
            Scalar::Int64(self.product_id),
            Scalar::Int64(self.size_id),
        ];
        assert(values_of(r@) =~= self.spec_values());
        r
    }

    fn from_scalars(v: Vec<Scalar>) -> (r: Self) {
        let ghost vals = values_of(v@);
        proof {
            assert(kind_of(vals[0]) == Kind::Int64);
            assert(kind_of(vals[1]) == Kind::Int64);
        }
        let mut v = v;
        let size_id = pop_int64(&mut v);
        let product_id = pop_int64(&mut v);
        let r = CreateProductSizeMappingRequest { product_id, size_id };
        assert(r.spec_values() =~= vals);
        r
    }

    proof fn lemma_schema(&self) {
        let vals = self.spec_values();
        let schema = Self::spec_schema();
        assert(vals.len() == 2 && schema.len() == 2);
        assert forall|i: int| 0 <= i < vals.len() implies #[trigger] kind_of(vals[i]) == schema[i] by {
            if i == 0 {} else {}
        }
    }
}

impl Default for CreateProductSizeMappingRequest {
    fn default() -> (r: Self)
        ensures
            r.spec_values() == defaults(Self::spec_schema()),
    {
        let r = CreateProductSizeMappingRequest { product_id: 0, size_id: 0 };
        assert(r.spec_values() =~= defaults(Self::spec_schema()));
        r
    }
}

#[derive(Clone, Debug)]
pub struct GetProductSizeMappingRequest {
    pub product_id: i64,
    pub size_id: i64,
}

impl ProtoMessage for GetProductSizeMappingRequest {
    open spec fn spec_schema() -> Seq<Kind> {
        seq![Kind::Int64, Kind::Int64]
    }

    open spec fn spec_values(&self) -> Seq<ScalarValue> {
        seq![
            ScalarValue::Int64(self.product_id),
            ScalarValue::Int64(self.size_id),
        ]
    }

    fn schema() -> (r: Vec<Kind>) {
        vec![Kind::Int64, Kind::Int64]
    }

    fn to_scalars(&self) -> (r: Vec<Scalar>) {
        let r = vec![
            Scalar::Int64(self.product_id),
            Scalar::Int64(self.size_id),
        ];
        assert(values_of(r@) =~= self.spec_values());
        r
    }

    fn from_scalars(v: Vec<Scalar>) -> (r: Self) {
        let ghost vals = values_of(v@);
        proof {
            assert(kind_of(vals[0]) == Kind::Int64);
            assert(kind_of(vals[1]) == Kind::Int64);
        }
        let mut v = v;
        let size_id = pop_int64(&mut v);
        let product_id = pop_int64(&mut v);
        let r = GetProductSizeMappingRequest { product_id, size_id };
        assert(r.spec_values() =~= vals);
        r
    }

    proof fn lemma_schema(&self) {
        let vals = self.spec_values();
        let schema = Self::spec_schema();
        assert(vals.len() == 2 && schema.len() == 2);
        assert forall|i: int| 0 <= i < vals.len() implies #[trigger] kind_of(vals[i]) == schema[i] by {
            if i == 0 {} else {}
        }
    }
}

impl Default for GetProductSizeMappingRequest {
    fn default() -> (r: Self)
        ensures
            r.spec_values() == defaults(Self::spec_schema()),
    {
        let r = GetProductSizeMappingRequest { product_id: 0, size_id: 0 };
        assert(r.spec_values() =~= defaults(Self::spec_schema()));
        r
    }
}

#[derive(Clone, Debug)]
pub struct DeleteProductSizeMappingRequest {
    pub product_id: i64,
    pub size_id: i64,
}

impl ProtoMessage for DeleteProductSizeMappingRequest {
    open spec fn spec_schema() -> Seq<Kind> {
        seq![Kind::Int64, Kind::Int64]
    }

    open spec fn spec_values(&self) -> Seq<ScalarValue> {
        seq![
            ScalarValue::Int64(self.product_id),
            ScalarValue::Int64(self.size_id),
        ]
    }

    fn schema() -> (r: Vec<Kind>) {
        vec![Kind::Int64, Kind::Int64]
    }

    fn to_scalars(&self) -> (r: Vec<Scalar>) {
        let r = vec![
            Scalar::Int64(self.product_id),
            Scalar::Int64(self.size_id),
        ];
        assert(values_of(r@) =~= self.spec_values());
        r
    }

    fn from_scalars(v: Vec<Scalar>) -> (r: Self) {
        let ghost vals = values_of(v@);
        proof {
            assert(kind_of(vals[0]) == Kind::Int64);
            assert(kind_of(vals[1]) == Kind::Int64);
        }
        let mut v = v;
        let size_id = pop_int64(&mut v);
        let product_id = pop_int64(&mut v);
        let r = DeleteProductSizeMappingRequest { product_id, size_id };
        assert(r.spec_values() =~= vals);
        r
    }

    proof fn lemma_schema(&self) {
        let vals = self.spec_values();
        let schema = Self::spec_schema();
        assert(vals.len() == 2 && schema.len() == 2);
        assert forall|i: int| 0 <= i < vals.len() implies #[trigger] kind_of(vals[i]) == schema[i] by {
            if i == 0 {} else {}
        }
    }
}

impl Default for DeleteProductSizeMappingRequest {
    fn default() -> (r: Self)
        ensures
            r.spec_values() == defaults(Self::spec_schema()),
    {
        let r = DeleteProductSizeMappingRequest { product_id: 0, size_id: 0 };
        assert(r.spec_values() =~= defaults(Self::spec_schema()));
        r
    }
}

#[derive(Clone, Debug)]
pub struct ProductSizeMappingResponse {
    pub product_id: i64,
    pub size_id: i64,
}

impl ProtoMessage for ProductSizeMappingResponse {
    open spec fn spec_schema() -> Seq<Kind> {
        seq![Kind::Int64, Kind::Int64]
    }

    open spec fn spec_values(&self) -> Seq<ScalarValue> {
        seq![
            ScalarValue::Int64(self.product_id),
            ScalarValue::Int64(self.size_id),
        ]
    }

    fn schema() -> (r: Vec<Kind>) {
        vec![Kind::Int64, Kind::Int64]
    }

    fn to_scalars(&self) -> (r: Vec<Scalar>) {
        let r = vec![
            Scalar::Int64(self.product_id),
            Scalar::Int64(self.size_id),
        ];
        assert(values_of(r@) =~= self.spec_values());
        r
    }

    fn from_scalars(v: Vec<Scalar>) -> (r: Self) {
        let ghost vals = values_of(v@);
        proof {
            assert(kind_of(vals[0]) == Kind::Int64);
            assert(kind_of(vals[1]) == Kind::Int64);
        }
        let mut v = v;
        let size_id = pop_int64(&mut v);
        let product_id = pop_int64(&mut v);
        let r = ProductSizeMappingResponse { product_id, size_id };
        assert(r.spec_values() =~= vals);
        r
    }

    proof fn lemma_schema(&self) {
        let vals = self.spec_values();
        let schema = Self::spec_schema();
        assert(vals.len() == 2 && schema.len() == 2);
        assert forall|i: int| 0 <= i < vals.len() implies #[trigger] kind_of(vals[i]) == schema[i] by {
            if i == 0 {} else {}
        }
    }
}

impl Default for ProductSizeMappingResponse {
    fn default() -> (r: Self)
        ensures
            r.spec_values() == defaults(Self::spec_schema()),
    {
        let r = ProductSizeMappingResponse { product_id: 0, size_id: 0 };
        assert(r.spec_values() =~= defaults(Self::spec_schema()));
        r
    }
}

#[derive(Clone, Debug)]
pub struct ProductSizeMappingsResponse {
    pub items: Vec<ProductSizeMappingResponse>,
}

impl ProtoList for ProductSizeMappingsResponse {
    type Item = ProductSizeMappingResponse;

    open spec fn spec_items(&self) -> Seq<ProductSizeMappingResponse> {
        self.items@
    }

    fn items(&self) -> (r: &Vec<ProductSizeMappingResponse>) {
        &self.items
    }

    fn from_items(items: Vec<ProductSizeMappingResponse>) -> (r: Self) {
        ProductSizeMappingsResponse { items }
    }
}

impl Default for ProductSizeMappingsResponse {
    fn default() -> (r: Self)
        ensures
            r.spec_items() == Seq::<ProductSizeMappingResponse>::empty(),
    {
        ProductSizeMappingsResponse { items: Vec::new() }
    }
}

#[derive(Clone, Debug)]
pub struct CreateProductColorMappingRequest {
    pub product_id: i64,
    pub color_id: i64,
}

impl ProtoMessage for CreateProductColorMappingRequest {
    open spec fn spec_schema() -> Seq<Kind> {
        seq![Kind::Int64, Kind::Int64]
    }

    open spec fn spec_values(&self) -> Seq<ScalarValue> {
        seq![
            ScalarValue::Int64(self.product_id),
            ScalarValue::Int64(self.color_id),
        ]
    }

    fn schema() -> (r: Vec<Kind>) {
        vec![Kind::Int64, Kind::Int64]
    }

    fn to_scalars(&self) -> (r: Vec<Scalar>) {
        let r = vec![
            Scalar::Int64(self.product_id),
            Scalar::Int64(self.color_id),
        ];
        assert(values_of(r@) =~= self.spec_values());
        r
    }

    fn from_scalars(v: Vec<Scalar>) -> (r: Self) {
        let ghost vals = values_of(v@);
        proof {
            assert(kind_of(vals[0]) == Kind::Int64);
            assert(kind_of(vals[1]) == Kind::Int64);
        }
        let mut v = v;
        let color_id = pop_int64(&mut v);
        let product_id = pop_int64(&mut v);
        let r = CreateProductColorMappingRequest { product_id, color_id };
        assert(r.spec_values() =~= vals);
        r
    }

    proof fn lemma_schema(&self) {
        let vals = self.spec_values();
        let schema = Self::spec_schema();
        assert(vals.len() == 2 && schema.len() == 2);
        assert forall|i: int| 0 <= i < vals.len() implies #[trigger] kind_of(vals[i]) == schema[i] by {
            if i == 0 {} else {}
        }
    }
}

impl Default for CreateProductColorMappingRequest {
    fn default() -> (r: Self)
        ensures
            r.spec_values() == defaults(Self::spec_schema()),
    {
        let r = CreateProductColorMappingRequest { product_id: 0, color_id: 0 };
        assert(r.spec_values() =~= defaults(Self::spec_schema()));
        r
    }
}

#[derive(Clone, Debug)]
pub struct GetProductColorMappingRequest {
    pub product_id: i64,
    pub color_id: i64,
}

impl ProtoMessage for GetProductColorMappingRequest {
    open spec fn spec_schema() -> Seq<Kind> {
        seq![Kind::Int64, Kind::Int64]
    }

    open spec fn spec_values(&self) -> Seq<ScalarValue> {
        seq![
            ScalarValue::Int64(self.product_id),
            ScalarValue::Int64(self.color_id),
        ]
    }

    fn schema() -> (r: Vec<Kind>) {
        vec![Kind::Int64, Kind::Int64]
    }

    fn to_scalars(&self) -> (r: Vec<Scalar>) {
        let r = vec![
            Scalar::Int64(self.product_id),
            Scalar::Int64(self.color_id),
        ];
        assert(values_of(r@) =~= self.spec_values());
        r
    }

    fn from_scalars(v: Vec<Scalar>) -> (r: Self) {
        let ghost vals = values_of(v@);
        proof {
            assert(kind_of(vals[0]) == Kind::Int64);
            assert(kind_of(vals[1]) == Kind::Int64);
        }
        let mut v = v;
        let color_id = pop_int64(&mut v);
        let product_id = pop_int64(&mut v);
        let r = GetProductColorMappingRequest { product_id, color_id };
        assert(r.spec_values() =~= vals);
        r
    }

    proof fn lemma_schema(&self) {
        let vals = self.spec_values();
        let schema = Self::spec_schema();
        assert(vals.len() == 2 && schema.len() == 2);
        assert forall|i: int| 0 <= i < vals.len() implies #[trigger] kind_of(vals[i]) == schema[i] by {
            if i == 0 {} else {}
        }
    }
}

impl Default for GetProductColorMappingRequest {
    fn default() -> (r: Self)
        ensures
            r.spec_values() == defaults(Self::spec_schema()),
    {
        let r = GetProductColorMappingRequest { product_id: 0, color_id: 0 };
        assert(r.spec_values() =~= defaults(Self::spec_schema()));
        r
    }
}

#[derive(Clone, Debug)]
pub struct DeleteProductColorMappingRequest {
    pub product_id: i64,
    pub color_id: i64,
}

impl ProtoMessage for DeleteProductColorMappingRequest {
    open spec fn spec_schema() -> Seq<Kind> {
        seq![Kind::Int64, Kind::Int64]
    }

    open spec fn spec_values(&self) -> Seq<ScalarValue> {
        seq![
            ScalarValue::Int64(self.product_id),
            ScalarValue::Int64(self.color_id),
        ]
    }

    fn schema() -> (r: Vec<Kind>) {
        vec![Kind::Int64, Kind::Int64]
    }

    fn to_scalars(&self) -> (r: Vec<Scalar>) {
        let r = vec![
            Scalar::Int64(self.product_id),
            Scalar::Int64(self.color_id),
        ];
        assert(values_of(r@) =~= self.spec_values());
        r
    }

    fn from_scalars(v: Vec<Scalar>) -> (r: Self) {
        let ghost vals = values_of(v@);
        proof {
            assert(kind_of(vals[0]) == Kind::Int64);
            assert(kind_of(vals[1]) == Kind::Int64);
        }
        let mut v = v;
        let color_id = pop_int64(&mut v);
        let product_id = pop_int64(&mut v);
        let r = DeleteProductColorMappingRequest { product_id, color_id };
        assert(r.spec_values() =~= vals);
        r
    }

    proof fn lemma_schema(&self) {
        let vals = self.spec_values();
        let schema = Self::spec_schema();
        assert(vals.len() == 2 && schema.len() == 2);
        assert forall|i: int| 0 <= i < vals.len() implies #[trigger] kind_of(vals[i]) == schema[i] by {
            if i == 0 {} else {}
        }
    }
}

impl Default for DeleteProductColorMappingRequest {
    fn default() -> (r: Self)
        ensures
            r.spec_values() == defaults(Self::spec_schema()),
    {
        let r = DeleteProductColorMappingRequest { product_id: 0, color_id: 0 };
        assert(r.spec_values() =~= defaults(Self::spec_schema()));
        r
    }
}

#[derive(Clone, Debug)]
pub struct ProductColorMappingResponse {
    pub product_id: i64,
    pub color_id: i64,
}

impl ProtoMessage for ProductColorMappingResponse {
    open spec fn spec_schema() -> Seq<Kind> {
        seq![Kind::Int64, Kind::Int64]
    }

    open spec fn spec_values(&self) -> Seq<ScalarValue> {
        seq![
            ScalarValue::Int64(self.product_id),
            ScalarValue::Int64(self.color_id),
        ]
    }

    fn schema() -> (r: Vec<Kind>) {
        vec![Kind::Int64, Kind::Int64]
    }

    fn to_scalars(&self) -> (r: Vec<Scalar>) {
        let r = vec![
            Scalar::Int64(self.product_id),
            Scalar::Int64(self.color_id),
        ];
        assert(values_of(r@) =~= self.spec_values());
        r
    }

    fn from_scalars(v: Vec<Scalar>) -> (r: Self) {
        let ghost vals = values_of(v@);
        proof {
            assert(kind_of(vals[0]) == Kind::Int64);
            assert(kind_of(vals[1]) == Kind::Int64);
        }
        let mut v = v;
        let color_id = pop_int64(&mut v);
        let product_id = pop_int64(&mut v);
        let r = ProductColorMappingResponse { product_id, color_id };
        assert(r.spec_values() =~= vals);
        r
    }

    proof fn lemma_schema(&self) {
        let vals = self.spec_values();
        let schema = Self::spec_schema();
        assert(vals.len() == 2 && schema.len() == 2);
        assert forall|i: int| 0 <= i < vals.len() implies #[trigger] kind_of(vals[i]) == schema[i] by {
            if i == 0 {} else {}
        }
    }
}

impl Default for ProductColorMappingResponse {
    fn default() -> (r: Self)
        ensures
            r.spec_values() == defaults(Self::spec_schema()),
    {
        let r = ProductColorMappingResponse { product_id: 0, color_id: 0 };
        assert(r.spec_values() =~= defaults(Self::spec_schema()));
        r
    }
}

#[derive(Clone, Debug)]
pub struct ProductColorMappingsResponse {
    pub items: Vec<ProductColorMappingResponse>,
}

impl ProtoList for ProductColorMappingsResponse {
    type Item = ProductColorMappingResponse;

    open spec fn spec_items(&self) -> Seq<ProductColorMappingResponse> {
        self.items@
    }

    fn items(&self) -> (r: &Vec<ProductColorMappingResponse>) {
        &self.items
    }

    fn from_items(items: Vec<ProductColorMappingResponse>) -> (r: Self) {
        ProductColorMappingsResponse { items }
    }
}

impl Default for ProductColorMappingsResponse {
    fn default() -> (r: Self)
        ensures
            r.spec_items() == Seq::<ProductColorMappingResponse>::empty(),
    {
        ProductColorMappingsResponse { items: Vec::new() }
    }
}

#[derive(Clone, Debug)]
pub struct CreateProductVariantRequest {
    pub product_id: i64,
    pub size_id: Option<i64>,
    pub color_id: Option<i64>,
    /// IEEE 754 bit pattern.
    pub additional_price: Option<u64>,
}

impl ProtoMessage for CreateProductVariantRequest {
    open spec fn spec_schema() -> Seq<Kind> {
        seq![Kind::Int64, Kind::OptInt64, Kind::OptInt64, Kind::OptDouble]
    }

    open spec fn spec_values(&self) -> Seq<ScalarValue> {
        seq![
            ScalarValue::Int64(self.product_id),
            ScalarValue::OptInt64(self.size_id),
            ScalarValue::OptInt64(self.color_id),
            ScalarValue::OptDouble(self.additional_price),
        ]
    }

    fn schema() -> (r: Vec<Kind>) {
        vec![Kind::Int64, Kind::OptInt64, Kind::OptInt64, Kind::OptDouble]
    }

    fn to_scalars(&self) -> (r: Vec<Scalar>) {
        let r = vec![
            Scalar::Int64(self.product_id),
            Scalar::OptInt64(self.size_id),
            Scalar::OptInt64(self.color_id),
            Scalar::OptDouble(self.additional_price),
        ];
        assert(values_of(r@) =~= self.spec_values());
        r
    }

    fn from_scalars(v: Vec<Scalar>) -> (r: Self) {
        let ghost vals = values_of(v@);
        proof {
            assert(kind_of(vals[0]) == Kind::Int64);
            assert(kind_of(vals[1]) == Kind::OptInt64);
            assert(kind_of(vals[2]) == Kind::OptInt64);
            assert(kind_of(vals[3]) == Kind::OptDouble);
        }
        let mut v = v;
        let additional_price = pop_opt_double(&mut v);
        let color_id = pop_opt_int64(&mut v);
        let size_id = pop_opt_int64(&mut v);
        let product_id = pop_int64(&mut v);
        let r = CreateProductVariantRequest { product_id, size_id, color_id, additional_price };
        assert(r.spec_values() =~= vals);
        r
    }

    proof fn lemma_schema(&self) {
        let vals = self.spec_values();
        let schema = Self::spec_schema();
        assert(vals.len() == 4 && schema.len() == 4);
        assert forall|i: int| 0 <= i < vals.len() implies #[trigger] kind_of(vals[i]) == schema[i] by {
            if i == 0 {} else if i == 1 {} else if i == 2 {} else {}
        }
    }
}

impl Default for CreateProductVariantRequest {
    fn default() -> (r: Self)
        ensures
            r.spec_values() == defaults(Self::spec_schema()),
    {
        let r = CreateProductVariantRequest { product_id: 0, size_id: None, color_id: None, additional_price: None };
        assert(r.spec_values() =~= defaults(Self::spec_schema()));
        r
    }
}

#[derive(Clone, Debug)]
pub struct GetProductVariantRequest {
    pub variant_id: i64,
}

impl ProtoMessage for GetProductVariantRequest {
    open spec fn spec_schema() -> Seq<Kind> {
        seq![Kind::Int64]
    }

    open spec fn spec_values(&self) -> Seq<ScalarValue> {
        seq![
            ScalarValue::Int64(self.variant_id),
        ]
    }

    fn schema() -> (r: Vec<Kind>) {
        vec![Kind::Int64]
    }

    fn to_scalars(&self) -> (r: Vec<Scalar>) {
        let r = vec![
            Scalar::Int64(self.variant_id),
        ];
        assert(values_of(r@) =~= self.spec_values());
        r
    }

    fn from_scalars(v: Vec<Scalar>) -> (r: Self) {
        let ghost vals = values_of(v@);
        proof {
            assert(kind_of(vals[0]) == Kind::Int64);
        }
        let mut v = v;
        let variant_id = pop_int64(&mut v);
        let r = GetProductVariantRequest { variant_id };
        assert(r.spec_values() =~= vals);
        r
    }

    proof fn lemma_schema(&self) {
        let vals = self.spec_values();
        let schema = Self::spec_schema();
        assert(vals.len() == 1 && schema.len() == 1);
        assert forall|i: int| 0 <= i < vals.len() implies #[trigger] kind_of(vals[i]) == schema[i] by {
            assert(i == 0);
        }
    }
}

impl Default for GetProductVariantRequest {
    fn default() -> (r: Self)
        ensures
            r.spec_values() == defaults(Self::spec_schema()),
    {
        let r = GetProductVariantRequest { variant_id: 0 };
        assert(r.spec_values() =~= defaults(Self::spec_schema()));
        r
    }
}

#[derive(Clone, Debug)]
pub struct UpdateProductVariantRequest {
    pub variant_id: i64,
    pub product_id: Option<i64>,
    pub size_id: Option<i64>,
    pub color_id: Option<i64>,
    /// IEEE 754 bit pattern.
    pub additional_price: Option<u64>,
}

impl ProtoMessage for UpdateProductVariantRequest {
    open spec fn spec_schema() -> Seq<Kind> {
        seq![Kind::Int64, Kind::OptInt64, Kind::OptInt64, Kind::OptInt64, Kind::OptDouble]
    }

    open spec fn spec_values(&self) -> Seq<ScalarValue> {
        seq![
            ScalarValue::Int64(self.variant_id),
            ScalarValue::OptInt64(self.product_id),
            ScalarValue::OptInt64(self.size_id),
            ScalarValue::OptInt64(self.color_id),
            ScalarValue::OptDouble(self.additional_price),
        ]
    }

    fn schema() -> (r: Vec<Kind>) {
        vec![Kind::Int64, Kind::OptInt64, Kind::OptInt64, Kind::OptInt64, Kind::OptDouble]
    }

    fn to_scalars(&self) -> (r: Vec<Scalar>) {
        let r = vec![
            Scalar::Int64(self.variant_id),
            Scalar::OptInt64(self.product_id),
            Scalar::OptInt64(self.size_id),
            Scalar::OptInt64(self.color_id),
            Scalar::OptDouble(self.additional_price),
        ];
        assert(values_of(r@) =~= self.spec_values());
        r
    }

    fn from_scalars(v: Vec<Scalar>) -> (r: Self) {
        let ghost vals = values_of(v@);
        proof {
            assert(kind_of(vals[0]) == Kind::Int64);
            assert(kind_of(vals[1]) == Kind::OptInt64);
            assert(kind_of(vals[2]) == Kind::OptInt64);
            assert(kind_of(vals[3]) == Kind::OptInt64);
            assert(kind_of(vals[4]) == Kind::OptDouble);
        }
        let mut v = v;
        let additional_price = pop_opt_double(&mut v);
        let color_id = pop_opt_int64(&mut v);
        let size_id = pop_opt_int64(&mut v);
        let product_id = pop_opt_int64(&mut v);
        let variant_id = pop_int64(&mut v);
        let r = UpdateProductVariantRequest { variant_id, product_id, size_id, color_id, additional_price };
        assert(r.spec_values() =~= vals);
        r
    }

    proof fn lemma_schema(&self) {
        let vals = self.spec_values();
        let schema = Self::spec_schema();
        assert(vals.len() == 5 && schema.len() == 5);
        assert forall|i: int| 0 <= i < vals.len() implies #[trigger] kind_of(vals[i]) == schema[i] by {
            if i == 0 {} else if i == 1 {} else if i == 2 {} else if i == 3 {} else {}
        }
    }
}

impl Default for UpdateProductVariantRequest {
    fn default() -> (r: Self)
        ensures
            r.spec_values() == defaults(Self::spec_schema()),
    {
        let r = UpdateProductVariantRequest { variant_id: 0, product_id: None, size_id: None, color_id: None, additional_price: None };
        assert(r.spec_values() =~= defaults(Self::spec_schema()));
        r
    }
}

#[derive(Clone, Debug)]
pub struct DeleteProductVariantRequest {
    pub variant_id: i64,
}

impl ProtoMessage for DeleteProductVariantRequest {
    open spec fn spec_schema() -> Seq<Kind> {
        seq![Kind::Int64]
    }

    open spec fn spec_values(&self) -> Seq<ScalarValue> {
        seq![
            ScalarValue::Int64(self.variant_id),
        ]
    }

    fn schema() -> (r: Vec<Kind>) {
        vec![Kind::Int64]
    }

    fn to_scalars(&self) -> (r: Vec<Scalar>) {
        let r = vec![
            Scalar::Int64(self.variant_id),
        ];
        assert(values_of(r@) =~= self.spec_values());
        r
    }

    fn from_scalars(v: Vec<Scalar>) -> (r: Self) {
        let ghost vals = values_of(v@);
        proof {
            assert(kind_of(vals[0]) == Kind::Int64);
        }
        let mut v = v;
        let variant_id = pop_int64(&mut v);
        let r = DeleteProductVariantRequest { variant_id };
        assert(r.spec_values() =~= vals);
        r
    }

    proof fn lemma_schema(&self) {
        let vals = self.spec_values();
        let schema = Self::spec_schema();
        assert(vals.len() == 1 && schema.len() == 1);
        assert forall|i: int| 0 <= i < vals.len() implies #[trigger] kind_of(vals[i]) == schema[i] by {
            assert(i == 0);
        }
    }
}

impl Default for DeleteProductVariantRequest {
    fn default() -> (r: Self)
        ensures
            r.spec_values() == defaults(Self::spec_schema()),
    {
        let r = DeleteProductVariantRequest { variant_id: 0 };
        assert(r.spec_values() =~= defaults(Self::spec_schema()));
        r
    }
}

#[derive(Clone, Debug)]
pub struct ProductVariantResponse {
    pub variant_id: i64,
    pub product_id: i64,
    pub size_id: Option<i64>,
    pub color_id: Option<i64>,
    /// IEEE 754 bit pattern.
    pub additional_price: Option<u64>,
}

impl ProtoMessage for ProductVariantResponse {
    open spec fn spec_schema() -> Seq<Kind> {
        seq![Kind::Int64, Kind::Int64, Kind::OptInt64, Kind::OptInt64, Kind::OptDouble]
    }

    open spec fn spec_values(&self) -> Seq<ScalarValue> {
        seq![
            ScalarValue::Int64(self.variant_id),
            ScalarValue::Int64(self.product_id),
            ScalarValue::OptInt64(self.size_id),
            ScalarValue::OptInt64(self.color_id),
            ScalarValue::OptDouble(self.additional_price),
        ]
    }

    fn schema() -> (r: Vec<Kind>) {
        vec![Kind::Int64, Kind::Int64, Kind::OptInt64, Kind::OptInt64, Kind::OptDouble]
    }

    fn to_scalars(&self) -> (r: Vec<Scalar>) {
        let r = vec![
            Scalar::Int64(self.variant_id),
            Scalar::Int64(self.product_id),
            Scalar::OptInt64(self.size_id),
            Scalar::OptInt64(self.color_id),
            Scalar::OptDouble(self.additional_price),
        ];
        assert(values_of(r@) =~= self.spec_values());
        r
    }

    fn from_scalars(v: Vec<Scalar>) -> (r: Self) {
        let ghost vals = values_of(v@);
        proof {
            assert(kind_of(vals[0]) == Kind::Int64);
            assert(kind_of(vals[1]) == Kind::Int64);
            assert(kind_of(vals[2]) == Kind::OptInt64);
            assert(kind_of(vals[3]) == Kind::OptInt64);
            assert(kind_of(vals[4]) == Kind::OptDouble);
        }
        let mut v = v;
        let additional_price = pop_opt_double(&mut v);
        let color_id = pop_opt_int64(&mut v);
        let size_id = pop_opt_int64(&mut v);
        let product_id = pop_int64(&mut v);
        let variant_id = pop_int64(&mut v);
        let r = ProductVariantResponse { variant_id, product_id, size_id, color_id, additional_price };
        assert(r.spec_values() =~= vals);
        r
    }

    proof fn lemma_schema(&self) {
        let vals = self.spec_values();
        let schema = Self::spec_schema();
        assert(vals.len() == 5 && schema.len() == 5);
        assert forall|i: int| 0 <= i < vals.len() implies #[trigger] kind_of(vals[i]) == schema[i] by {
            if i == 0 {} else if i == 1 {} else if i == 2 {} else if i == 3 {} else {}
        }
    }
}

impl Default for ProductVariantResponse {
    fn default() -> (r: Self)
        ensures
            r.spec_values() == defaults(Self::spec_schema()),
    {
        let r = ProductVariantResponse { variant_id: 0, product_id: 0, size_id: None, color_id: None, additional_price: None };
        assert(r.spec_values() =~= defaults(Self::spec_schema()));
        r
    }
}

#[derive(Clone, Debug)]
pub struct ProductVariantsResponse {
    pub items: Vec<ProductVariantResponse>,
}

impl ProtoList for ProductVariantsResponse {
    type Item = ProductVariantResponse;

    open spec fn spec_items(&self) -> Seq<ProductVariantResponse> {
        self.items@
    }

    fn items(&self) -> (r: &Vec<ProductVariantResponse>) {
        &self.items
    }

    fn from_items(items: Vec<ProductVariantResponse>) -> (r: Self) {
        ProductVariantsResponse { items }
    }
}

impl Default for ProductVariantsResponse {
    fn default() -> (r: Self)
        ensures
            r.spec_items() == Seq::<ProductVariantResponse>::empty(),
    {
        ProductVariantsResponse { items: Vec::new() }
    }
}

#[derive(Clone, Debug)]
pub struct CreateEventLogRequest {
    pub event_type: String,
    pub event_description: String,
    pub user_id: i64,
}

impl ProtoMessage for CreateEventLogRequest {
    open spec fn spec_schema() -> Seq<Kind> {
        seq![Kind::Str, Kind::Str, Kind::Int64]
    }

    open spec fn spec_values(&self) -> Seq<ScalarValue> {
        seq![
            ScalarValue::Str(self.event_type@),
            ScalarValue::Str(self.event_description@),
            ScalarValue::Int64(self.user_id),
        ]
    }

    fn schema() -> (r: Vec<Kind>) {
        vec![Kind::Str, Kind::Str, Kind::Int64]
    }

    fn to_scalars(&self) -> (r: Vec<Scalar>) {
        let r = vec![
            Scalar::Str(self.event_type.clone()),
            Scalar::Str(self.event_description.clone()),
            Scalar::Int64(self.user_id),
        ];
        assert(values_of(r@) =~= self.spec_values());
        r
    }

    fn from_scalars(v: Vec<Scalar>) -> (r: Self) {
        let ghost vals = values_of(v@);
        proof {
            assert(kind_of(vals[0]) == Kind::Str);
            assert(kind_of(vals[1]) == Kind::Str);
            assert(kind_of(vals[2]) == Kind::Int64);
        }
        let mut v = v;
        let user_id = pop_int64(&mut v);
        let event_description = pop_str(&mut v);
        let event_type = pop_str(&mut v);
        let r = CreateEventLogRequest { event_type, event_description, user_id };
        assert(r.spec_values() =~= vals);
        r
    }

    proof fn lemma_schema(&self) {
        let vals = self.spec_values();
        let schema = Self::spec_schema();
        assert(vals.len() == 3 && schema.len() == 3);
        assert forall|i: int| 0 <= i < vals.len() implies #[trigger] kind_of(vals[i]) == schema[i] by {
            if i == 0 {} else if i == 1 {} else {}
        }
    }
}

impl Default for CreateEventLogRequest {
    fn default() -> (r: Self)
        ensures
            r.spec_values() == defaults(Self::spec_schema()),
    {
        let r = CreateEventLogRequest { event_type: String::new(), event_description: String::new(), user_id: 0 };
        assert(r.spec_values() =~= defaults(Self::spec_schema()));
        r
    }
}

#[derive(Clone, Debug)]
pub struct GetEventLogRequest {
    pub log_id: i64,
}

impl ProtoMessage for GetEventLogRequest {
    open spec fn spec_schema() -> Seq<Kind> {
        seq![Kind::Int64]
    }

    open spec fn spec_values(&self) -> Seq<ScalarValue> {
        seq![
            ScalarValue::Int64(self.log_id),
        ]
    }

    fn schema() -> (r: Vec<Kind>) {
        vec![Kind::Int64]
    }

    fn to_scalars(&self) -> (r: Vec<Scalar>) {
        let r = vec![
            Scalar::Int64(self.log_id),
        ];
        assert(values_of(r@) =~= self.spec_values());
        r
    }

    fn from_scalars(v: Vec<Scalar>) -> (r: Self) {
        let ghost vals = values_of(v@);
        proof {
            assert(kind_of(vals[0]) == Kind::Int64);
        }
        let mut v = v;
        let log_id = pop_int64(&mut v);
        let r = GetEventLogRequest { log_id };
        assert(r.spec_values() =~= vals);
        r
    }

    proof fn lemma_schema(&self) {
        let vals = self.spec_values();
        let schema = Self::spec_schema();
        assert(vals.len() == 1 && schema.len() == 1);
        assert forall|i: int| 0 <= i < vals.len() implies #[trigger] kind_of(vals[i]) == schema[i] by {
            assert(i == 0);
        }
    }
}

impl Default for GetEventLogRequest {
    fn default() -> (r: Self)
        ensures
            r.spec_values() == defaults(Self::spec_schema()),
    {
        let r = GetEventLogRequest { log_id: 0 };
        assert(r.spec_values() =~= defaults(Self::spec_schema()));
        r
    }
}

#[derive(Clone, Debug)]
pub struct UpdateEventLogRequest {
    pub log_id: i64,
    pub event_type: Option<String>,
    pub event_description: Option<String>,
    pub user_id: Option<i64>,
}

impl ProtoMessage for UpdateEventLogRequest {
    open spec fn spec_schema() -> Seq<Kind> {
        seq![Kind::Int64, Kind::OptStr, Kind::OptStr, Kind::OptInt64]
    }

    open spec fn spec_values(&self) -> Seq<ScalarValue> {
        seq![
            ScalarValue::Int64(self.log_id),
            ScalarValue::OptStr(opt_chars(self.event_type)),
            ScalarValue::OptStr(opt_chars(self.event_description)),
            ScalarValue::OptInt64(self.user_id),
        ]
    }

    fn schema() -> (r: Vec<Kind>) {
        vec![Kind::Int64, Kind::OptStr, Kind::OptStr, Kind::OptInt64]
    }

    fn to_scalars(&self) -> (r: Vec<Scalar>) {
        let r = vec![
            Scalar::Int64(self.log_id),
            opt_str_scalar(&self.event_type),
            opt_str_scalar(&self.event_description),
            Scalar::OptInt64(self.user_id),
        ];
        assert(values_of(r@) =~= self.spec_values());
        r
    }

    fn from_scalars(v: Vec<Scalar>) -> (r: Self) {
        let ghost vals = values_of(v@);
        proof {
            assert(kind_of(vals[0]) == Kind::Int64);
            assert(kind_of(vals[1]) == Kind::OptStr);
            assert(kind_of(vals[2]) == Kind::OptStr);
            assert(kind_of(vals[3]) == Kind::OptInt64);
        }
        let mut v = v;
        let user_id = pop_opt_int64(&mut v);
        let event_description = pop_opt_str(&mut v);
        let event_type = pop_opt_str(&mut v);
        let log_id = pop_int64(&mut v);
        let r = UpdateEventLogRequest { log_id, event_type, event_description, user_id };
        assert(r.spec_values() =~= vals);
        r
    }

    proof fn lemma_schema(&self) {
        let vals = self.spec_values();
        let schema = Self::spec_schema();
        assert(vals.len() == 4 && schema.len() == 4);
        assert forall|i: int| 0 <= i < vals.len() implies #[trigger] kind_of(vals[i]) == schema[i] by {
            if i == 0 {} else if i == 1 {} else if i == 2 {} else {}
        }
    }
}

impl Default for UpdateEventLogRequest {
    fn default() -> (r: Self)
        ensures
            r.spec_values() == defaults(Self::spec_schema()),
    {
        let r = UpdateEventLogRequest { log_id: 0, event_type: None, event_description: None, user_id: None };
        assert(r.spec_values() =~= defaults(Self::spec_schema()));
        r
    }
}

#[derive(Clone, Debug)]
pub struct DeleteEventLogRequest {
    pub log_id: i64,
}

impl ProtoMessage for DeleteEventLogRequest {
    open spec fn spec_schema() -> Seq<Kind> {
        seq![Kind::Int64]
    }

    open spec fn spec_values(&self) -> Seq<ScalarValue> {
        seq![
            ScalarValue::Int64(self.log_id),
        ]
    }

    fn schema() -> (r: Vec<Kind>) {
        vec![Kind::Int64]
    }

    fn to_scalars(&self) -> (r: Vec<Scalar>) {
        let r = vec![
            Scalar::Int64(self.log_id),
        ];
        assert(values_of(r@) =~= self.spec_values());
        r
    }

    fn from_scalars(v: Vec<Scalar>) -> (r: Self) {
        let ghost vals = values_of(v@);
        proof {
            assert(kind_of(vals[0]) == Kind::Int64);
        }
        let mut v = v;
        let log_id = pop_int64(&mut v);
        let r = DeleteEventLogRequest { log_id };
        assert(r.spec_values() =~= vals);
        r
    }

    proof fn lemma_schema(&self) {
        let vals = self.spec_values();
        let schema = Self::spec_schema();
        assert(vals.len() == 1 && schema.len() == 1);
        assert forall|i: int| 0 <= i < vals.len() implies #[trigger] kind_of(vals[i]) == schema[i] by {
            assert(i == 0);
        }
    }
}

impl Default for DeleteEventLogRequest {
    fn default() -> (r: Self)
        ensures
            r.spec_values() == defaults(Self::spec_schema()),
    {
        let r = DeleteEventLogRequest { log_id: 0 };
        assert(r.spec_values() =~= defaults(Self::spec_schema()));
        r
    }
}

#[derive(Clone, Debug)]
pub struct EventLogResponse {
    pub log_id: i64,
    pub event_type: String,
    pub event_description: String,
    pub user_id: i64,
    pub event_time: String,
}

impl ProtoMessage for EventLogResponse {
    open spec fn spec_schema() -> Seq<Kind> {
        seq![Kind::Int64, Kind::Str, Kind::Str, Kind::Int64, Kind::Str]
    }

    open spec fn spec_values(&self) -> Seq<ScalarValue> {
        seq![
            ScalarValue::Int64(self.log_id),
            ScalarValue::Str(self.event_type@),
            ScalarValue::Str(self.event_description@),
            ScalarValue::Int64(self.user_id),
            ScalarValue::Str(self.event_time@),
        ]
    }

    fn schema() -> (r: Vec<Kind>) {
        vec![Kind::Int64, Kind::Str, Kind::Str, Kind::Int64, Kind::Str]
    }

    fn to_scalars(&self) -> (r: Vec<Scalar>) {
        let r = vec![
            Scalar::Int64(self.log_id),
            Scalar::Str(self.event_type.clone()),
            Scalar::Str(self.event_description.clone()),
            Scalar::Int64(self.user_id),
            Scalar::Str(self.event_time.clone()),
        ];
        assert(values_of(r@) =~= self.spec_values());
        r
    }

    fn from_scalars(v: Vec<Scalar>) -> (r: Self) {
        let ghost vals = values_of(v@);
        proof {
            assert(kind_of(vals[0]) == Kind::Int64);
            assert(kind_of(vals[1]) == Kind::Str);
            assert(kind_of(vals[2]) == Kind::Str);
            assert(kind_of(vals[3]) == Kind::Int64);
            assert(kind_of(vals[4]) == Kind::Str);
        }
        let mut v = v;
        let event_time = pop_str(&mut v);
        let user_id = pop_int64(&mut v);
        let event_description = pop_str(&mut v);
        let event_type = pop_str(&mut v);
        let log_id = pop_int64(&mut v);
        let r = EventLogResponse { log_id, event_type, event_description, user_id, event_time };
        assert(r.spec_values() =~= vals);
        r
    }

    proof fn lemma_schema(&self) {
        let vals = self.spec_values();
        let schema = Self::spec_schema();
        assert(vals.len() == 5 && schema.len() == 5);
        assert forall|i: int| 0 <= i < vals.len() implies #[trigger] kind_of(vals[i]) == schema[i] by {
            if i == 0 {} else if i == 1 {} else if i == 2 {} else if i == 3 {} else {}
        }
    }
}

impl Default for EventLogResponse {
    fn default() -> (r: Self)
        ensures
            r.spec_values() == defaults(Self::spec_schema()),
    {
        let r = EventLogResponse { log_id: 0, event_type: String::new(), event_description: String::new(), user_id: 0, event_time: String::new() };
        assert(r.spec_values() =~= defaults(Self::spec_schema()));
        r
    }
}

#[derive(Clone, Debug)]
pub struct EventLogsResponse {
    pub items: Vec<EventLogResponse>,
}

impl ProtoList for EventLogsResponse {
    type Item = EventLogResponse;

    open spec fn spec_items(&self) -> Seq<EventLogResponse> {
        self.items@
    }

    fn items(&self) -> (r: &Vec<EventLogResponse>) {
        &self.items
    }

    fn from_items(items: Vec<EventLogResponse>) -> (r: Self) {
        EventLogsResponse { items }
    }
}

impl Default for EventLogsResponse {
    fn default() -> (r: Self)
        ensures
            r.spec_items() == Seq::<EventLogResponse>::empty(),
    {
        EventLogsResponse { items: Vec::new() }
    }
}

#[derive(Clone, Debug)]
pub struct CreateUserActivityRequest {
    pub user_id: i64,
    pub activity_type: String,
    pub activity_details: String,
}

impl ProtoMessage for CreateUserActivityRequest {
    open spec fn spec_schema() -> Seq<Kind> {
        seq![Kind::Int64, Kind::Str, Kind::Str]
    }

    open spec fn spec_values(&self) -> Seq<ScalarValue> {
        seq![
            ScalarValue::Int64(self.user_id),
            ScalarValue::Str(self.activity_type@),
            ScalarValue::Str(self.activity_details@),
        ]
    }

    fn schema() -> (r: Vec<Kind>) {
        vec![Kind::Int64, Kind::Str, Kind::Str]
    }

    fn to_scalars(&self) -> (r: Vec<Scalar>) {
        let r = vec![
            Scalar::Int64(self.user_id),
            Scalar::Str(self.activity_type.clone()),
            Scalar::Str(self.activity_details.clone()),
        ];
        assert(values_of(r@) =~= self.spec_values());
        r
    }

    fn from_scalars(v: Vec<Scalar>) -> (r: Self) {
        let ghost vals = values_of(v@);
        proof {
            assert(kind_of(vals[0]) == Kind::Int64);
            assert(kind_of(vals[1]) == Kind::Str);
            assert(kind_of(vals[2]) == Kind::Str);
        }
        let mut v = v;
        let activity_details = pop_str(&mut v);
        let activity_type = pop_str(&mut v);
        let user_id = pop_int64(&mut v);
        let r = CreateUserActivityRequest { user_id, activity_type, activity_details };
        assert(r.spec_values() =~= vals);
        r
    }

    proof fn lemma_schema(&self) {
        let vals = self.spec_values();
        let schema = Self::spec_schema();
        assert(vals.len() == 3 && schema.len() == 3);
        assert forall|i: int| 0 <= i < vals.len() implies #[trigger] kind_of(vals[i]) == schema[i] by {
            if i == 0 {} else if i == 1 {} else {}
        }
    }
}

impl Default for CreateUserActivityRequest {
    fn default() -> (r: Self)
        ensures
            r.spec_values() == defaults(Self::spec_schema()),
    {
        let r = CreateUserActivityRequest { user_id: 0, activity_type: String::new(), activity_details: String::new() };
        assert(r.spec_values() =~= defaults(Self::spec_schema()));
        r
    }
}

#[derive(Clone, Debug)]
pub struct GetUserActivityRequest {
    pub activity_id: i64,
}

impl ProtoMessage for GetUserActivityRequest {
    open spec fn spec_schema() -> Seq<Kind> {
        seq![Kind::Int64]
    }

    open spec fn spec_values(&self) -> Seq<ScalarValue> {
        seq![
            ScalarValue::Int64(self.activity_id),
        ]
    }

    fn schema() -> (r: Vec<Kind>) {
        vec![Kind::Int64]
    }

    fn to_scalars(&self) -> (r: Vec<Scalar>) {
        let r = vec![
            Scalar::Int64(self.activity_id),
        ];
        assert(values_of(r@) =~= self.spec_values());
        r
    }

    fn from_scalars(v: Vec<Scalar>) -> (r: Self) {
        let ghost vals = values_of(v@);
        proof {
            assert(kind_of(vals[0]) == Kind::Int64);
        }
        let mut v = v;
        let activity_id = pop_int64(&mut v);
        let r = GetUserActivityRequest { activity_id };
        assert(r.spec_values() =~= vals);
        r
    }

    proof fn lemma_schema(&self) {
        let vals = self.spec_values();
        let schema = Self::spec_schema();
        assert(vals.len() == 1 && schema.len() == 1);
        assert forall|i: int| 0 <= i < vals.len() implies #[trigger] kind_of(vals[i]) == schema[i] by {
            assert(i == 0);
        }
    }
}

impl Default for GetUserActivityRequest {
    fn default() -> (r: Self)
        ensures
            r.spec_values() == defaults(Self::spec_schema()),
    {
        let r = GetUserActivityRequest { activity_id: 0 };
        assert(r.spec_values() =~= defaults(Self::spec_schema()));
        r
    }
}

#[derive(Clone, Debug)]
pub struct UpdateUserActivityRequest {
    pub activity_id: i64,
    pub user_id: Option<i64>,
    pub activity_type: Option<String>,
    pub activity_details: Option<String>,
}

impl ProtoMessage for UpdateUserActivityRequest {
    open spec fn spec_schema() -> Seq<Kind> {
        seq![Kind::Int64, Kind::OptInt64, Kind::OptStr, Kind::OptStr]
    }

    open spec fn spec_values(&self) -> Seq<ScalarValue> {
        seq![
            ScalarValue::Int64(self.activity_id),
            ScalarValue::OptInt64(self.user_id),
            ScalarValue::OptStr(opt_chars(self.activity_type)),
            ScalarValue::OptStr(opt_chars(self.activity_details)),
        ]
    }

    fn schema() -> (r: Vec<Kind>) {
        vec![Kind::Int64, Kind::OptInt64, Kind::OptStr, Kind::OptStr]
    }

    fn to_scalars(&self) -> (r: Vec<Scalar>) {
        let r = vec![
            Scalar::Int64(self.activity_id),
            Scalar::OptInt64(self.user_id),
            opt_str_scalar(&self.activity_type),
            opt_str_scalar(&self.activity_details),
        ];
        assert(values_of(r@) =~= self.spec_values());
        r
    }

    fn from_scalars(v: Vec<Scalar>) -> (r: Self) {
        let ghost vals = values_of(v@);
        proof {
            assert(kind_of(vals[0]) == Kind::Int64);
            assert(kind_of(vals[1]) == Kind::OptInt64);
            assert(kind_of(vals[2]) == Kind::OptStr);
            assert(kind_of(vals[3]) == Kind::OptStr);
        }
        let mut v = v;
        let activity_details = pop_opt_str(&mut v);
        let activity_type = pop_opt_str(&mut v);
        let user_id = pop_opt_int64(&mut v);
        let activity_id = pop_int64(&mut v);
        let r = UpdateUserActivityRequest { activity_id, user_id, activity_type, activity_details };
        assert(r.spec_values() =~= vals);
        r
    }

    proof fn lemma_schema(&self) {
        let vals = self.spec_values();
        let schema = Self::spec_schema();
        assert(vals.len() == 4 && schema.len() == 4);
        assert forall|i: int| 0 <= i < vals.len() implies #[trigger] kind_of(vals[i]) == schema[i] by {
            if i == 0 {} else if i == 1 {} else if i == 2 {} else {}
        }
    }
}

impl Default for UpdateUserActivityRequest {
    fn default() -> (r: Self)
        ensures
            r.spec_values() == defaults(Self::spec_schema()),
    {
        let r = UpdateUserActivityRequest { activity_id: 0, user_id: None, activity_type: None, activity_details: None };
        assert(r.spec_values() =~= defaults(Self::spec_schema()));
        r
    }
}

#[derive(Clone, Debug)]
pub struct DeleteUserActivityRequest {
    pub activity_id: i64,
}

impl ProtoMessage for DeleteUserActivityRequest {
    open spec fn spec_schema() -> Seq<Kind> {
        seq![Kind::Int64]
    }

    open spec fn spec_values(&self) -> Seq<ScalarValue> {
        seq![
            ScalarValue::Int64(self.activity_id),
        ]
    }

    fn schema() -> (r: Vec<Kind>) {
        vec![Kind::Int64]
    }

    fn to_scalars(&self) -> (r: Vec<Scalar>) {
        let r = vec![
            Scalar::Int64(self.activity_id),
        ];
        assert(values_of(r@) =~= self.spec_values());
        r
    }

    fn from_scalars(v: Vec<Scalar>) -> (r: Self) {
        let ghost vals = values_of(v@);
        proof {
            assert(kind_of(vals[0]) == Kind::Int64);
        }
        let mut v = v;
        let activity_id = pop_int64(&mut v);
        let r = DeleteUserActivityRequest { activity_id };
        assert(r.spec_values() =~= vals);
        r
    }

    proof fn lemma_schema(&self) {
        let vals = self.spec_values();
        let schema = Self::spec_schema();
        assert(vals.len() == 1 && schema.len() == 1);
        assert forall|i: int| 0 <= i < vals.len() implies #[trigger] kind_of(vals[i]) == schema[i] by {
            assert(i == 0);
        }
    }
}

impl Default for DeleteUserActivityRequest {
    fn default() -> (r: Self)
        ensures
            r.spec_values() == defaults(Self::spec_schema()),
    {
        let r = DeleteUserActivityRequest { activity_id: 0 };
        assert(r.spec_values() =~= defaults(Self::spec_schema()));
        r
    }
}

#[derive(Clone, Debug)]
pub struct UserActivityResponse {
    pub activity_id: i64,
    pub user_id: i64,
    pub activity_type: String,
    pub activity_time: String,
    pub activity_details: String,
}

impl ProtoMessage for UserActivityResponse {
    open spec fn spec_schema() -> Seq<Kind> {
        seq![Kind::Int64, Kind::Int64, Kind::Str, Kind::Str, Kind::Str]
    }

    open spec fn spec_values(&self) -> Seq<ScalarValue> {
        seq![
            ScalarValue::Int64(self.activity_id),
            ScalarValue::Int64(self.user_id),
            ScalarValue::Str(self.activity_type@),
            ScalarValue::Str(self.activity_time@),
            ScalarValue::Str(self.activity_details@),
        ]
    }

    fn schema() -> (r: Vec<Kind>) {
        vec![Kind::Int64, Kind::Int64, Kind::Str, Kind::Str, Kind::Str]
    }

    fn to_scalars(&self) -> (r: Vec<Scalar>) {
        let r = vec![
            Scalar::Int64(self.activity_id),
            Scalar::Int64(self.user_id),
            Scalar::Str(self.activity_type.clone()),
            Scalar::Str(self.activity_time.clone()),
            Scalar::Str(self.activity_details.clone()),
        ];
        assert(values_of(r@) =~= self.spec_values());
        r
    }

    fn from_scalars(v: Vec<Scalar>) -> (r: Self) {
        let ghost vals = values_of(v@);
        proof {
            assert(kind_of(vals[0]) == Kind::Int64);
            assert(kind_of(vals[1]) == Kind::Int64);
            assert(kind_of(vals[2]) == Kind::Str);
            assert(kind_of(vals[3]) == Kind::Str);
            assert(kind_of(vals[4]) == Kind::Str);
        }
        let mut v = v;
        let activity_details = pop_str(&mut v);
        let activity_time = pop_str(&mut v);
        let activity_type = pop_str(&mut v);
        let user_id = pop_int64(&mut v);
        let activity_id = pop_int64(&mut v);
        let r = UserActivityResponse { activity_id, user_id, activity_type, activity_time, activity_details };
        assert(r.spec_values() =~= vals);
        r
    }

    proof fn lemma_schema(&self) {
        let vals = self.spec_values();
        let schema = Self::spec_schema();
        assert(vals.len() == 5 && schema.len() == 5);
        assert forall|i: int| 0 <= i < vals.len() implies #[trigger] kind_of(vals[i]) == schema[i] by {
            if i == 0 {} else if i == 1 {} else if i == 2 {} else if i == 3 {} else {}
        }
    }
}

impl Default for UserActivityResponse {
    fn default() -> (r: Self)
        ensures
            r.spec_values() == defaults(Self::spec_schema()),
    {
        let r = UserActivityResponse { activity_id: 0, user_id: 0, activity_type: String::new(), activity_time: String::new(), activity_details: String::new() };
        assert(r.spec_values() =~= defaults(Self::spec_schema()));
        r
    }
}

#[derive(Clone, Debug)]
pub struct UserActivitiesResponse {
    pub items: Vec<UserActivityResponse>,
}

impl ProtoList for UserActivitiesResponse {
    type Item = UserActivityResponse;

    open spec fn spec_items(&self) -> Seq<UserActivityResponse> {
        self.items@
    }

    fn items(&self) -> (r: &Vec<UserActivityResponse>) {
        &self.items
    }

    fn from_items(items: Vec<UserActivityResponse>) -> (r: Self) {
        UserActivitiesResponse { items }
    }
}

impl Default for UserActivitiesResponse {
    fn default() -> (r: Self)
        ensures
            r.spec_items() == Seq::<UserActivityResponse>::empty(),
    {
        UserActivitiesResponse { items: Vec::new() }
    }
}

#[derive(Clone, Debug)]
pub struct CreateInventoryLogRequest {
    pub product_id: i64,
    pub change_quantity: i64,
    pub reason: String,
}

impl ProtoMessage for CreateInventoryLogRequest {
    open spec fn spec_schema() -> Seq<Kind> {
        seq![Kind::Int64, Kind::Int64, Kind::Str]
    }

    open spec fn spec_values(&self) -> Seq<ScalarValue> {
        seq![
            ScalarValue::Int64(self.product_id),
            ScalarValue::Int64(self.change_quantity),
            ScalarValue::Str(self.reason@),
        ]
    }

    fn schema() -> (r: Vec<Kind>) {
        vec![Kind::Int64, Kind::Int64, Kind::Str]
    }

    fn to_scalars(&self) -> (r: Vec<Scalar>) {
        let r = vec![
            Scalar::Int64(self.product_id),
            Scalar::Int64(self.change_quantity),
            Scalar::Str(self.reason.clone()),
        ];
        assert(values_of(r@) =~= self.spec_values());
        r
    }

    fn from_scalars(v: Vec<Scalar>) -> (r: Self) {
        let ghost vals = values_of(v@);
        proof {
            assert(kind_of(vals[0]) == Kind::Int64);
            assert(kind_of(vals[1]) == Kind::Int64);
            assert(kind_of(vals[2]) == Kind::Str);
        }
        let mut v = v;
        let reason = pop_str(&mut v);
        let change_quantity = pop_int64(&mut v);
        let product_id = pop_int64(&mut v);
        let r = CreateInventoryLogRequest { product_id, change_quantity, reason };
        assert(r.spec_values() =~= vals);
        r
    }

    proof fn lemma_schema(&self) {
        let vals = self.spec_values();
        let schema = Self::spec_schema();
        assert(vals.len() == 3 && schema.len() == 3);
        assert forall|i: int| 0 <= i < vals.len() implies #[trigger] kind_of(vals[i]) == schema[i] by {
            if i == 0 {} else if i == 1 {} else {}
        }
    }
}

impl Default for CreateInventoryLogRequest {
    fn default() -> (r: Self)
        ensures
            r.spec_values() == defaults(Self::spec_schema()),
    {
        let r = CreateInventoryLogRequest { product_id: 0, change_quantity: 0, reason: String::new() };
        assert(r.spec_values() =~= defaults(Self::spec_schema()));
        r
    }
}

#[derive(Clone, Debug)]
pub struct GetInventoryLogRequest {
    pub log_id: i64,
}

impl ProtoMessage for GetInventoryLogRequest {
    open spec fn spec_schema() -> Seq<Kind> {
        seq![Kind::Int64]
    }

    open spec fn spec_values(&self) -> Seq<ScalarValue> {
        seq![
            ScalarValue::Int64(self.log_id),
        ]
    }

    fn schema() -> (r: Vec<Kind>) {
        vec![Kind::Int64]
    }

    fn to_scalars(&self) -> (r: Vec<Scalar>) {
        let r = vec![
            Scalar::Int64(self.log_id),
        ];
        assert(values_of(r@) =~= self.spec_values());
        r
    }

    fn from_scalars(v: Vec<Scalar>) -> (r: Self) {
        let ghost vals = values_of(v@);
        proof {
            assert(kind_of(vals[0]) == Kind::Int64);
        }
        let mut v = v;
        let log_id = pop_int64(&mut v);
        let r = GetInventoryLogRequest { log_id };
        assert(r.spec_values() =~= vals);
        r
    }

    proof fn lemma_schema(&self) {
        let vals = self.spec_values();
        let schema = Self::spec_schema();
        assert(vals.len() == 1 && schema.len() == 1);
        assert forall|i: int| 0 <= i < vals.len() implies #[trigger] kind_of(vals[i]) == schema[i] by {
            assert(i == 0);
        }
    }
}

impl Default for GetInventoryLogRequest {
    fn default() -> (r: Self)
        ensures
            r.spec_values() == defaults(Self::spec_schema()),
    {
        let r = GetInventoryLogRequest { log_id: 0 };
        assert(r.spec_values() =~= defaults(Self::spec_schema()));
        r
    }
}

#[derive(Clone, Debug)]
pub struct UpdateInventoryLogRequest {
    pub log_id: i64,
    pub product_id: Option<i64>,
    pub change_quantity: Option<i64>,
    pub reason: Option<String>,
}

impl ProtoMessage for UpdateInventoryLogRequest {
    open spec fn spec_schema() -> Seq<Kind> {
        seq![Kind::Int64, Kind::OptInt64, Kind::OptInt64, Kind::OptStr]
    }

    open spec fn spec_values(&self) -> Seq<ScalarValue> {
        seq![
            ScalarValue::Int64(self.log_id),
            ScalarValue::OptInt64(self.product_id),
            ScalarValue::OptInt64(self.change_quantity),
            ScalarValue::OptStr(opt_chars(self.reason)),
        ]
    }

    fn schema() -> (r: Vec<Kind>) {
        vec![Kind::Int64, Kind::OptInt64, Kind::OptInt64, Kind::OptStr]
    }

    fn to_scalars(&self) -> (r: Vec<Scalar>) {
        let r = vec![
            Scalar::Int64(self.log_id),
            Scalar::OptInt64(self.product_id),
            Scalar::OptInt64(self.change_quantity),
            opt_str_scalar(&self.reason),
        ];
        assert(values_of(r@) =~= self.spec_values());
        r
    }

    fn from_scalars(v: Vec<Scalar>) -> (r: Self) {
        let ghost vals = values_of(v@);
        proof {
            assert(kind_of(vals[0]) == Kind::Int64);
            assert(kind_of(vals[1]) == Kind::OptInt64);
            assert(kind_of(vals[2]) == Kind::OptInt64);
            assert(kind_of(vals[3]) == Kind::OptStr);
        }
        let mut v = v;
        let reason = pop_opt_str(&mut v);
        let change_quantity = pop_opt_int64(&mut v);
        let product_id = pop_opt_int64(&mut v);
        let log_id = pop_int64(&mut v);
        let r = UpdateInventoryLogRequest { log_id, product_id, change_quantity, reason };
        assert(r.spec_values() =~= vals);
        r
    }

    proof fn lemma_schema(&self) {
        let vals = self.spec_values();
        let schema = Self::spec_schema();
        assert(vals.len() == 4 && schema.len() == 4);
        assert forall|i: int| 0 <= i < vals.len() implies #[trigger] kind_of(vals[i]) == schema[i] by {
            if i == 0 {} else if i == 1 {} else if i == 2 {} else {}
        }
    }
}

impl Default for UpdateInventoryLogRequest {
    fn default() -> (r: Self)
        ensures
            r.spec_values() == defaults(Self::spec_schema()),
    {
        let r = UpdateInventoryLogRequest { log_id: 0, product_id: None, change_quantity: None, reason: None };
        assert(r.spec_values() =~= defaults(Self::spec_schema()));
        r
    }
}

#[derive(Clone, Debug)]
pub struct DeleteInventoryLogRequest {
    pub log_id: i64,
}

impl ProtoMessage for DeleteInventoryLogRequest {
    open spec fn spec_schema() -> Seq<Kind> {
        seq![Kind::Int64]
    }

    open spec fn spec_values(&self) -> Seq<ScalarValue> {
        seq![
            ScalarValue::Int64(self.log_id),
        ]
    }

    fn schema() -> (r: Vec<Kind>) {
        vec![Kind::Int64]
    }

    fn to_scalars(&self) -> (r: Vec<Scalar>) {
        let r = vec![
            Scalar::Int64(self.log_id),
        ];
        assert(values_of(r@) =~= self.spec_values());
        r
    }

    fn from_scalars(v: Vec<Scalar>) -> (r: Self) {
        let ghost vals = values_of(v@);
        proof {
            assert(kind_of(vals[0]) == Kind::Int64);
        }
        let mut v = v;
        let log_id = pop_int64(&mut v);
        let r = DeleteInventoryLogRequest { log_id };
        assert(r.spec_values() =~= vals);
        r
    }

    proof fn lemma_schema(&self) {
        let vals = self.spec_values();
        let schema = Self::spec_schema();
        assert(vals.len() == 1 && schema.len() == 1);
        assert forall|i: int| 0 <= i < vals.len() implies #[trigger] kind_of(vals[i]) == schema[i] by {
            assert(i == 0);
        }
    }
}

impl Default for DeleteInventoryLogRequest {
    fn default() -> (r: Self)
        ensures
            r.spec_values() == defaults(Self::spec_schema()),
    {
        let r = DeleteInventoryLogRequest { log_id: 0 };
        assert(r.spec_values() =~= defaults(Self::spec_schema()));
        r
    }
}

#[derive(Clone, Debug)]
pub struct InventoryLogResponse {
    pub log_id: i64,
    pub product_id: i64,
    pub change_quantity: i64,
    pub log_time: String,
    pub reason: String,
}

impl ProtoMessage for InventoryLogResponse {
    open spec fn spec_schema() -> Seq<Kind> {
        seq![Kind::Int64, Kind::Int64, Kind::Int64, Kind::Str, Kind::Str]
    }

    open spec fn spec_values(&self) -> Seq<ScalarValue> {
        seq![
            ScalarValue::Int64(self.log_id),
            ScalarValue::Int64(self.product_id),
            ScalarValue::Int64(self.change_quantity),
            ScalarValue::Str(self.log_time@),
            ScalarValue::Str(self.reason@),
        ]
    }

    fn schema() -> (r: Vec<Kind>) {
        vec![Kind::Int64, Kind::Int64, Kind::Int64, Kind::Str, Kind::Str]
    }

    fn to_scalars(&self) -> (r: Vec<Scalar>) {
        let r = vec![
            Scalar::Int64(self.log_id),
            Scalar::Int64(self.product_id),
            Scalar::Int64(self.change_quantity),
            Scalar::Str(self.log_time.clone()),
            Scalar::Str(self.reason.clone()),
        ];
        assert(values_of(r@) =~= self.spec_values());
        r
    }

    fn from_scalars(v: Vec<Scalar>) -> (r: Self) {
        let ghost vals = values_of(v@);
        proof {
            assert(kind_of(vals[0]) == Kind::Int64);
            assert(kind_of(vals[1]) == Kind::Int64);
            assert(kind_of(vals[2]) == Kind::Int64);
            assert(kind_of(vals[3]) == Kind::Str);
            assert(kind_of(vals[4]) == Kind::Str);
        }
        let mut v = v;
        let reason = pop_str(&mut v);
        let log_time = pop_str(&mut v);
        let change_quantity = pop_int64(&mut v);
        let product_id = pop_int64(&mut v);
        let log_id = pop_int64(&mut v);
        let r = InventoryLogResponse { log_id, product_id, change_quantity, log_time, reason };
        assert(r.spec_values() =~= vals);
        r
    }

    proof fn lemma_schema(&self) {
        let vals = self.spec_values();
        let schema = Self::spec_schema();
        assert(vals.len() == 5 && schema.len() == 5);
        assert forall|i: int| 0 <= i < vals.len() implies #[trigger] kind_of(vals[i]) == schema[i] by {
            if i == 0 {} else if i == 1 {} else if i == 2 {} else if i == 3 {} else {}
        }
    }
}

impl Default for InventoryLogResponse {
    fn default() -> (r: Self)
        ensures
            r.spec_values() == defaults(Self::spec_schema()),
    {
        let r = InventoryLogResponse { log_id: 0, product_id: 0, change_quantity: 0, log_time: String::new(), reason: String::new() };
        assert(r.spec_values() =~= defaults(Self::spec_schema()));
        r
    }
}

#[derive(Clone, Debug)]
pub struct InventoryLogsResponse {
    pub items: Vec<InventoryLogResponse>,
}

impl ProtoList for InventoryLogsResponse {
    type Item = InventoryLogResponse;

    open spec fn spec_items(&self) -> Seq<InventoryLogResponse> {
        self.items@
    }

    fn items(&self) -> (r: &Vec<InventoryLogResponse>) {
        &self.items
    }

    fn from_items(items: Vec<InventoryLogResponse>) -> (r: Self) {
        InventoryLogsResponse { items }
    }
}

impl Default for InventoryLogsResponse {
    fn default() -> (r: Self)
        ensures
            r.spec_items() == Seq::<InventoryLogResponse>::empty(),
    {
        InventoryLogsResponse { items: Vec::new() }
    }
}

#[derive(Clone, Debug)]
pub struct CreatePromotionRequest {
    pub promotion_name: String,
    pub start_date: String,
    pub end_date: String,
    pub details: String,
}

impl ProtoMessage for CreatePromotionRequest {
    open spec fn spec_schema() -> Seq<Kind> {
        seq![Kind::Str, Kind::Str, Kind::Str, Kind::Str]
    }

    open spec fn spec_values(&self) -> Seq<ScalarValue> {
        seq![
            ScalarValue::Str(self.promotion_name@),
            ScalarValue::Str(self.start_date@),
            ScalarValue::Str(self.end_date@),
            ScalarValue::Str(self.details@),
        ]
    }

    fn schema() -> (r: Vec<Kind>) {
        vec![Kind::Str, Kind::Str, Kind::Str, Kind::Str]
    }

    fn to_scalars(&self) -> (r: Vec<Scalar>) {
        let r = vec![
            Scalar::Str(self.promotion_name.clone()),
            Scalar::Str(self.start_date.clone()),
            Scalar::Str(self.end_date.clone()),
            Scalar::Str(self.details.clone()),
        ];
        assert(values_of(r@) =~= self.spec_values());
        r
    }

    fn from_scalars(v: Vec<Scalar>) -> (r: Self) {
        let ghost vals = values_of(v@);
        proof {
            assert(kind_of(vals[0]) == Kind::Str);
            assert(kind_of(vals[1]) == Kind::Str);
            assert(kind_of(vals[2]) == Kind::Str);
            assert(kind_of(vals[3]) == Kind::Str);
        }
        let mut v = v;
        let details = pop_str(&mut v);
        let end_date = pop_str(&mut v);
        let start_date = pop_str(&mut v);
        let promotion_name = pop_str(&mut v);
        let r = CreatePromotionRequest { promotion_name, start_date, end_date, details };
        assert(r.spec_values() =~= vals);
        r
    }

    proof fn lemma_schema(&self) {
        let vals = self.spec_values();
        let schema = Self::spec_schema();
        assert(vals.len() == 4 && schema.len() == 4);
        assert forall|i: int| 0 <= i < vals.len() implies #[trigger] kind_of(vals[i]) == schema[i] by {
            if i == 0 {} else if i == 1 {} else if i == 2 {} else {}
        }
    }
}

impl Default for CreatePromotionRequest {
    fn default() -> (r: Self)
        ensures
            r.spec_values() == defaults(Self::spec_schema()),
    {
        let r = CreatePromotionRequest { promotion_name: String::new(), start_date: String::new(), end_date: String::new(), details: String::new() };
        assert(r.spec_values() =~= defaults(Self::spec_schema()));
        r
    }
}

#[derive(Clone, Debug)]
pub struct GetPromotionRequest {
    pub promotion_id: i64,
}

impl ProtoMessage for GetPromotionRequest {
    open spec fn spec_schema() -> Seq<Kind> {
        seq![Kind::Int64]
    }

    open spec fn spec_values(&self) -> Seq<ScalarValue> {
        seq![
            ScalarValue::Int64(self.promotion_id),
        ]
    }

    fn schema() -> (r: Vec<Kind>) {
        vec![Kind::Int64]
    }

    fn to_scalars(&self) -> (r: Vec<Scalar>) {
        let r = vec![
            Scalar::Int64(self.promotion_id),
        ];
        assert(values_of(r@) =~= self.spec_values());
        r
    }

    fn from_scalars(v: Vec<Scalar>) -> (r: Self) {
        let ghost vals = values_of(v@);
        proof {
            assert(kind_of(vals[0]) == Kind::Int64);
        }
        let mut v = v;
        let promotion_id = pop_int64(&mut v);
        let r = GetPromotionRequest { promotion_id };
        assert(r.spec_values() =~= vals);
        r
    }

    proof fn lemma_schema(&self) {
        let vals = self.spec_values();
        let schema = Self::spec_schema();
        assert(vals.len() == 1 && schema.len() == 1);
        assert forall|i: int| 0 <= i < vals.len() implies #[trigger] kind_of(vals[i]) == schema[i] by {
            assert(i == 0);
        }
    }
}

impl Default for GetPromotionRequest {
    fn default() -> (r: Self)
        ensures
            r.spec_values() == defaults(Self::spec_schema()),
    {
        let r = GetPromotionRequest { promotion_id: 0 };
        assert(r.spec_values() =~= defaults(Self::spec_schema()));
        r
    }
}

#[derive(Clone, Debug)]
pub struct UpdatePromotionRequest {
    pub promotion_id: i64,
    pub promotion_name: Option<String>,
    pub start_date: Option<String>,
    pub end_date: Option<String>,
    pub details: Option<String>,
}

impl ProtoMessage for UpdatePromotionRequest {
    open spec fn spec_schema() -> Seq<Kind> {
        seq![Kind::Int64, Kind::OptStr, Kind::OptStr, Kind::OptStr, Kind::OptStr]
    }

    open spec fn spec_values(&self) -> Seq<ScalarValue> {
        seq![
            ScalarValue::Int64(self.promotion_id),
            ScalarValue::OptStr(opt_chars(self.promotion_name)),
            ScalarValue::OptStr(opt_chars(self.start_date)),
            ScalarValue::OptStr(opt_chars(self.end_date)),
            ScalarValue::OptStr(opt_chars(self.details)),
        ]
    }

    fn schema() -> (r: Vec<Kind>) {
        vec![Kind::Int64, Kind::OptStr, Kind::OptStr, Kind::OptStr, Kind::OptStr]
    }

    fn to_scalars(&self) -> (r: Vec<Scalar>) {
        let r = vec![
            Scalar::Int64(self.promotion_id),
            opt_str_scalar(&self.promotion_name),
            opt_str_scalar(&self.start_date),
            opt_str_scalar(&self.end_date),
            opt_str_scalar(&self.details),
        ];
        assert(values_of(r@) =~= self.spec_values());
        r
    }

    fn from_scalars(v: Vec<Scalar>) -> (r: Self) {
        let ghost vals = values_of(v@);
        proof {
            assert(kind_of(vals[0]) == Kind::Int64);
            assert(kind_of(vals[1]) == Kind::OptStr);
            assert(kind_of(vals[2]) == Kind::OptStr);
            assert(kind_of(vals[3]) == Kind::OptStr);
            assert(kind_of(vals[4]) == Kind::OptStr);
        }
        let mut v = v;
        let details = pop_opt_str(&mut v);
        let end_date = pop_opt_str(&mut v);
        let start_date = pop_opt_str(&mut v);
        let promotion_name = pop_opt_str(&mut v);
        let promotion_id = pop_int64(&mut v);
        let r = UpdatePromotionRequest { promotion_id, promotion_name, start_date, end_date, details };
        assert(r.spec_values() =~= vals);
        r
    }

    proof fn lemma_schema(&self) {
        let vals = self.spec_values();
        let schema = Self::spec_schema();
        assert(vals.len() == 5 && schema.len() == 5);
        assert forall|i: int| 0 <= i < vals.len() implies #[trigger] kind_of(vals[i]) == schema[i] by {
            if i == 0 {} else if i == 1 {} else if i == 2 {} else if i == 3 {} else {}
        }
    }
}

impl Default for UpdatePromotionRequest {
    fn default() -> (r: Self)
        ensures
            r.spec_values() == defaults(Self::spec_schema()),
    {
        let r = UpdatePromotionRequest { promotion_id: 0, promotion_name: None, start_date: None, end_date: None, details: None };
        assert(r.spec_values() =~= defaults(Self::spec_schema()));
        r
    }
}

#[derive(Clone, Debug)]
pub struct DeletePromotionRequest {
    pub promotion_id: i64,
}

impl ProtoMessage for DeletePromotionRequest {
    open spec fn spec_schema() -> Seq<Kind> {
        seq![Kind::Int64]
    }

    open spec fn spec_values(&self) -> Seq<ScalarValue> {
        seq![
            ScalarValue::Int64(self.promotion_id),
        ]
    }

    fn schema() -> (r: Vec<Kind>) {
        vec![Kind::Int64]
    }

    fn to_scalars(&self) -> (r: Vec<Scalar>) {
        let r = vec![
            Scalar::Int64(self.promotion_id),
        ];
        assert(values_of(r@) =~= self.spec_values());
        r
    }

    fn from_scalars(v: Vec<Scalar>) -> (r: Self) {
        let ghost vals = values_of(v@);
        proof {
            assert(kind_of(vals[0]) == Kind::Int64);
        }
        let mut v = v;
        let promotion_id = pop_int64(&mut v);
        let r = DeletePromotionRequest { promotion_id };
        assert(r.spec_values() =~= vals);
        r
    }

    proof fn lemma_schema(&self) {
        let vals = self.spec_values();
        let schema = Self::spec_schema();
        assert(vals.len() == 1 && schema.len() == 1);
        assert forall|i: int| 0 <= i < vals.len() implies #[trigger] kind_of(vals[i]) == schema[i] by {
            assert(i == 0);
        }
    }
}

impl Default for DeletePromotionRequest {
    fn default() -> (r: Self)
        ensures
            r.spec_values() == defaults(Self::spec_schema()),
    {
        let r = DeletePromotionRequest { promotion_id: 0 };
        assert(r.spec_values() =~= defaults(Self::spec_schema()));
        r
    }
}

#[derive(Clone, Debug)]
pub struct PromotionResponse {
    pub promotion_id: i64,
    pub promotion_name: String,
    pub start_date: String,
    pub end_date: String,
    pub details: String,
}

impl ProtoMessage for PromotionResponse {
    open spec fn spec_schema() -> Seq<Kind> {
        seq![Kind::Int64, Kind::Str, Kind::Str, Kind::Str, Kind::Str]
    }

    open spec fn spec_values(&self) -> Seq<ScalarValue> {
        seq![
            ScalarValue::Int64(self.promotion_id),
            ScalarValue::Str(self.promotion_name@),
            ScalarValue::Str(self.start_date@),
            ScalarValue::Str(self.end_date@),
            ScalarValue::Str(self.details@),
        ]
    }

    fn schema() -> (r: Vec<Kind>) {
        vec![Kind::Int64, Kind::Str, Kind::Str, Kind::Str, Kind::Str]
    }

    fn to_scalars(&self) -> (r: Vec<Scalar>) {
        let r = vec![
            Scalar::Int64(self.promotion_id),
            Scalar::Str(self.promotion_name.clone()),
            Scalar::Str(self.start_date.clone()),
            Scalar::Str(self.end_date.clone()),
            Scalar::Str(self.details.clone()),
        ];
        assert(values_of(r@) =~= self.spec_values());
        r
    }

    fn from_scalars(v: Vec<Scalar>) -> (r: Self) {
        let ghost vals = values_of(v@);
        proof {
            assert(kind_of(vals[0]) == Kind::Int64);
            assert(kind_of(vals[1]) == Kind::Str);
            assert(kind_of(vals[2]) == Kind::Str);
            assert(kind_of(vals[3]) == Kind::Str);
            assert(kind_of(vals[4]) == Kind::Str);
        }
        let mut v = v;
        let details = pop_str(&mut v);
        let end_date = pop_str(&mut v);
        let start_date = pop_str(&mut v);
        let promotion_name = pop_str(&mut v);
        let promotion_id = pop_int64(&mut v);
        let r = PromotionResponse { promotion_id, promotion_name, start_date, end_date, details };
        assert(r.spec_values() =~= vals);
        r
    }

    proof fn lemma_schema(&self) {
        let vals = self.spec_values();
        let schema = Self::spec_schema();
        assert(vals.len() == 5 && schema.len() == 5);
        assert forall|i: int| 0 <= i < vals.len() implies #[trigger] kind_of(vals[i]) == schema[i] by {
            if i == 0 {} else if i == 1 {} else if i == 2 {} else if i == 3 {} else {}
        }
    }
}

impl Default for PromotionResponse {
    fn default() -> (r: Self)
        ensures
            r.spec_values() == defaults(Self::spec_schema()),
    {
        let r = PromotionResponse { promotion_id: 0, promotion_name: String::new(), start_date: String::new(), end_date: String::new(), details: String::new() };
        assert(r.spec_values() =~= defaults(Self::spec_schema()));
        r
    }
}

#[derive(Clone, Debug)]
pub struct PromotionsResponse {
    pub items: Vec<PromotionResponse>,
}

impl ProtoList for PromotionsResponse {
    type Item = PromotionResponse;

    open spec fn spec_items(&self) -> Seq<PromotionResponse> {
        self.items@
    }

    fn items(&self) -> (r: &Vec<PromotionResponse>) {
        &self.items
    }

    fn from_items(items: Vec<PromotionResponse>) -> (r: Self) {
        PromotionsResponse { items }
    }
}

impl Default for PromotionsResponse {
    fn default() -> (r: Self)
        ensures
            r.spec_items() == Seq::<PromotionResponse>::empty(),
    {
        PromotionsResponse { items: Vec::new() }
    }
}

#[derive(Clone, Debug)]
pub struct CreateShippingZoneRequest {
    pub zone_name: String,
    pub description: String,
}

impl ProtoMessage for CreateShippingZoneRequest {
    open spec fn spec_schema() -> Seq<Kind> {
        seq![Kind::Str, Kind::Str]
    }

    open spec fn spec_values(&self) -> Seq<ScalarValue> {
        seq![
            ScalarValue::Str(self.zone_name@),
            ScalarValue::Str(self.description@),
        ]
    }

    fn schema() -> (r: Vec<Kind>) {
        vec![Kind::Str, Kind::Str]
    }

    fn to_scalars(&self) -> (r: Vec<Scalar>) {
        let r = vec![
            Scalar::Str(self.zone_name.clone()),
            Scalar::Str(self.description.clone()),
        ];
        assert(values_of(r@) =~= self.spec_values());
        r
    }

    fn from_scalars(v: Vec<Scalar>) -> (r: Self) {
        let ghost vals = values_of(v@);
        proof {
            assert(kind_of(vals[0]) == Kind::Str);
            assert(kind_of(vals[1]) == Kind::Str);
        }
        let mut v = v;
        let description = pop_str(&mut v);
        let zone_name = pop_str(&mut v);
        let r = CreateShippingZoneRequest { zone_name, description };
        assert(r.spec_values() =~= vals);
        r
    }

    proof fn lemma_schema(&self) {
        let vals = self.spec_values();
        let schema = Self::spec_schema();
        assert(vals.len() == 2 && schema.len() == 2);
        assert forall|i: int| 0 <= i < vals.len() implies #[trigger] kind_of(vals[i]) == schema[i] by {
            if i == 0 {} else {}
        }
    }
}

impl Default for CreateShippingZoneRequest {
    fn default() -> (r: Self)
        ensures
            r.spec_values() == defaults(Self::spec_schema()),
    {
        let r = CreateShippingZoneRequest { zone_name: String::new(), description: String::new() };
        assert(r.spec_values() =~= defaults(Self::spec_schema()));
        r
    }
}

#[derive(Clone, Debug)]
pub struct GetShippingZoneRequest {
    pub zone_id: i64,
}

impl ProtoMessage for GetShippingZoneRequest {
    open spec fn spec_schema() -> Seq<Kind> {
        seq![Kind::Int64]
    }

    open spec fn spec_values(&self) -> Seq<ScalarValue> {
        seq![
            ScalarValue::Int64(self.zone_id),
        ]
    }

    fn schema() -> (r: Vec<Kind>) {
        vec![Kind::Int64]
    }

    fn to_scalars(&self) -> (r: Vec<Scalar>) {
        let r = vec![
            Scalar::Int64(self.zone_id),
        ];
        assert(values_of(r@) =~= self.spec_values());
        r
    }

    fn from_scalars(v: Vec<Scalar>) -> (r: Self) {
        let ghost vals = values_of(v@);
        proof {
            assert(kind_of(vals[0]) == Kind::Int64);
        }
        let mut v = v;
        let zone_id = pop_int64(&mut v);
        let r = GetShippingZoneRequest { zone_id };
        assert(r.spec_values() =~= vals);
        r
    }

    proof fn lemma_schema(&self) {
        let vals = self.spec_values();
        let schema = Self::spec_schema();
        assert(vals.len() == 1 && schema.len() == 1);
        assert forall|i: int| 0 <= i < vals.len() implies #[trigger] kind_of(vals[i]) == schema[i] by {
            assert(i == 0);
        }
    }
}

impl Default for GetShippingZoneRequest {
    fn default() -> (r: Self)
        ensures
            r.spec_values() == defaults(Self::spec_schema()),
    {
        let r = GetShippingZoneRequest { zone_id: 0 };
        assert(r.spec_values() =~= defaults(Self::spec_schema()));
        r
    }
}

#[derive(Clone, Debug)]
pub struct UpdateShippingZoneRequest {
    pub zone_id: i64,
    pub zone_name: Option<String>,
    pub description: Option<String>,
}

impl ProtoMessage for UpdateShippingZoneRequest {
    open spec fn spec_schema() -> Seq<Kind> {
        seq![Kind::Int64, Kind::OptStr, Kind::OptStr]
    }

    open spec fn spec_values(&self) -> Seq<ScalarValue> {
        seq![
            ScalarValue::Int64(self.zone_id),
            ScalarValue::OptStr(opt_chars(self.zone_name)),
            ScalarValue::OptStr(opt_chars(self.description)),
        ]
    }

    fn schema() -> (r: Vec<Kind>) {
        vec![Kind::Int64, Kind::OptStr, Kind::OptStr]
    }

    fn to_scalars(&self) -> (r: Vec<Scalar>) {
        let r = vec![
            Scalar::Int64(self.zone_id),
            opt_str_scalar(&self.zone_name),
            opt_str_scalar(&self.description),
        ];
        assert(values_of(r@) =~= self.spec_values());
        r
    }

    fn from_scalars(v: Vec<Scalar>) -> (r: Self) {
        let ghost vals = values_of(v@);
        proof {
            assert(kind_of(vals[0]) == Kind::Int64);
            assert(kind_of(vals[1]) == Kind::OptStr);
            assert(kind_of(vals[2]) == Kind::OptStr);
        }
        let mut v = v;
        let description = pop_opt_str(&mut v);
        let zone_name = pop_opt_str(&mut v);
        let zone_id = pop_int64(&mut v);
        let r = UpdateShippingZoneRequest { zone_id, zone_name, description };
        assert(r.spec_values() =~= vals);
        r
    }

    proof fn lemma_schema(&self) {
        let vals = self.spec_values();
        let schema = Self::spec_schema();
        assert(vals.len() == 3 && schema.len() == 3);
        assert forall|i: int| 0 <= i < vals.len() implies #[trigger] kind_of(vals[i]) == schema[i] by {
            if i == 0 {} else if i == 1 {} else {}
        }
    }
}

impl Default for UpdateShippingZoneRequest {
    fn default() -> (r: Self)
        ensures
            r.spec_values() == defaults(Self::spec_schema()),
    {
        let r = UpdateShippingZoneRequest { zone_id: 0, zone_name: None, description: None };
        assert(r.spec_values() =~= defaults(Self::spec_schema()));
        r
    }
}

#[derive(Clone, Debug)]
pub struct DeleteShippingZoneRequest {
    pub zone_id: i64,
}

impl ProtoMessage for DeleteShippingZoneRequest {
    open spec fn spec_schema() -> Seq<Kind> {
        seq![Kind::Int64]
    }

    open spec fn spec_values(&self) -> Seq<ScalarValue> {
        seq![
            ScalarValue::Int64(self.zone_id),
        ]
    }

    fn schema() -> (r: Vec<Kind>) {
        vec![Kind::Int64]
    }

    fn to_scalars(&self) -> (r: Vec<Scalar>) {
        let r = vec![
            Scalar::Int64(self.zone_id),
        ];
        assert(values_of(r@) =~= self.spec_values());
        r
    }

    fn from_scalars(v: Vec<Scalar>) -> (r: Self) {
        let ghost vals = values_of(v@);
        proof {
            assert(kind_of(vals[0]) == Kind::Int64);
        }
        let mut v = v;
        let zone_id = pop_int64(&mut v);
        let r = DeleteShippingZoneRequest { zone_id };
        assert(r.spec_values() =~= vals);
        r
    }

    proof fn lemma_schema(&self) {
        let vals = self.spec_values();
        let schema = Self::spec_schema();
        assert(vals.len() == 1 && schema.len() == 1);
        assert forall|i: int| 0 <= i < vals.len() implies #[trigger] kind_of(vals[i]) == schema[i] by {
            assert(i == 0);
        }
    }
}

impl Default for DeleteShippingZoneRequest {
    fn default() -> (r: Self)
        ensures
            r.spec_values() == defaults(Self::spec_schema()),
    {
        let r = DeleteShippingZoneRequest { zone_id: 0 };
        assert(r.spec_values() =~= defaults(Self::spec_schema()));
        r
    }
}

#[derive(Clone, Debug)]
pub struct ShippingZoneResponse {
    pub zone_id: i64,
    pub zone_name: String,
    pub description: String,
}

impl ProtoMessage for ShippingZoneResponse {
    open spec fn spec_schema() -> Seq<Kind> {
        seq![Kind::Int64, Kind::Str, Kind::Str]
    }

    open spec fn spec_values(&self) -> Seq<ScalarValue> {
        seq![
            ScalarValue::Int64(self.zone_id),
            ScalarValue::Str(self.zone_name@),
            ScalarValue::Str(self.description@),
        ]
    }

    fn schema() -> (r: Vec<Kind>) {
        vec![Kind::Int64, Kind::Str, Kind::Str]
    }

    fn to_scalars(&self) -> (r: Vec<Scalar>) {
        let r = vec![
            Scalar::Int64(self.zone_id),
            Scalar::Str(self.zone_name.clone()),
            Scalar::Str(self.description.clone()),
        ];
        assert(values_of(r@) =~= self.spec_values());
        r
    }

    fn from_scalars(v: Vec<Scalar>) -> (r: Self) {
        let ghost vals = values_of(v@);
        proof {
            assert(kind_of(vals[0]) == Kind::Int64);
            assert(kind_of(vals[1]) == Kind::Str);
            assert(kind_of(vals[2]) == Kind::Str);
        }
        let mut v = v;
        let description = pop_str(&mut v);
        let zone_name = pop_str(&mut v);
        let zone_id = pop_int64(&mut v);
        let r = ShippingZoneResponse { zone_id, zone_name, description };
        assert(r.spec_values() =~= vals);
        r
    }

    proof fn lemma_schema(&self) {
        let vals = self.spec_values();
        let schema = Self::spec_schema();
        assert(vals.len() == 3 && schema.len() == 3);
        assert forall|i: int| 0 <= i < vals.len() implies #[trigger] kind_of(vals[i]) == schema[i] by {
            if i == 0 {} else if i == 1 {} else {}
        }
    }
}

impl Default for ShippingZoneResponse {
    fn default() -> (r: Self)
        ensures
            r.spec_values() == defaults(Self::spec_schema()),
    {
        let r = ShippingZoneResponse { zone_id: 0, zone_name: String::new(), description: String::new() };
        assert(r.spec_values() =~= defaults(Self::spec_schema()));
        r
    }
}

#[derive(Clone, Debug)]
pub struct ShippingZonesResponse {
    pub items: Vec<ShippingZoneResponse>,
}

impl ProtoList for ShippingZonesResponse {
    type Item = ShippingZoneResponse;

    open spec fn spec_items(&self) -> Seq<ShippingZoneResponse> {
        self.items@
    }

    fn items(&self) -> (r: &Vec<ShippingZoneResponse>) {
        &self.items
    }

    fn from_items(items: Vec<ShippingZoneResponse>) -> (r: Self) {
        ShippingZonesResponse { items }
    }
}

impl Default for ShippingZonesResponse {
    fn default() -> (r: Self)
        ensures
            r.spec_items() == Seq::<ShippingZoneResponse>::empty(),
    {
        ShippingZonesResponse { items: Vec::new() }
    }
}

#[derive(Clone, Debug)]
pub struct CreatePaymentMethodRequest {
    pub method_name: String,
    pub details: String,
}

impl ProtoMessage for CreatePaymentMethodRequest {
    open spec fn spec_schema() -> Seq<Kind> {
        seq![Kind::Str, Kind::Str]
    }

    open spec fn spec_values(&self) -> Seq<ScalarValue> {
        seq![
            ScalarValue::Str(self.method_name@),
            ScalarValue::Str(self.details@),
        ]
    }

    fn schema() -> (r: Vec<Kind>) {
        vec![Kind::Str, Kind::Str]
    }

    fn to_scalars(&self) -> (r: Vec<Scalar>) {
        let r = vec![
            Scalar::Str(self.method_name.clone()),
            Scalar::Str(self.details.clone()),
        ];
        assert(values_of(r@) =~= self.spec_values());
        r
    }

    fn from_scalars(v: Vec<Scalar>) -> (r: Self) {
        let ghost vals = values_of(v@);
        proof {
            assert(kind_of(vals[0]) == Kind::Str);
            assert(kind_of(vals[1]) == Kind::Str);
        }
        let mut v = v;
        let details = pop_str(&mut v);
        let method_name = pop_str(&mut v);
        let r = CreatePaymentMethodRequest { method_name, details };
        assert(r.spec_values() =~= vals);
        r
    }

    proof fn lemma_schema(&self) {
        let vals = self.spec_values();
        let schema = Self::spec_schema();
        assert(vals.len() == 2 && schema.len() == 2);
        assert forall|i: int| 0 <= i < vals.len() implies #[trigger] kind_of(vals[i]) == schema[i] by {
            if i == 0 {} else {}
        }
    }
}

impl Default for CreatePaymentMethodRequest {
    fn default() -> (r: Self)
        ensures
            r.spec_values() == defaults(Self::spec_schema()),
    {
        let r = CreatePaymentMethodRequest { method_name: String::new(), details: String::new() };
        assert(r.spec_values() =~= defaults(Self::spec_schema()));
        r
    }
}

#[derive(Clone, Debug)]
pub struct GetPaymentMethodRequest {
    pub method_id: i64,
}

impl ProtoMessage for GetPaymentMethodRequest {
    open spec fn spec_schema() -> Seq<Kind> {
        seq![Kind::Int64]
    }

    open spec fn spec_values(&self) -> Seq<ScalarValue> {
        seq![
            ScalarValue::Int64(self.method_id),
        ]
    }

    fn schema() -> (r: Vec<Kind>) {
        vec![Kind::Int64]
    }

    fn to_scalars(&self) -> (r: Vec<Scalar>) {
        let r = vec![
            Scalar::Int64(self.method_id),
        ];
        assert(values_of(r@) =~= self.spec_values());
        r
    }

    fn from_scalars(v: Vec<Scalar>) -> (r: Self) {
        let ghost vals = values_of(v@);
        proof {
            assert(kind_of(vals[0]) == Kind::Int64);
        }
        let mut v = v;
        let method_id = pop_int64(&mut v);
        let r = GetPaymentMethodRequest { method_id };
        assert(r.spec_values() =~= vals);
        r
    }

    proof fn lemma_schema(&self) {
        let vals = self.spec_values();
        let schema = Self::spec_schema();
        assert(vals.len() == 1 && schema.len() == 1);
        assert forall|i: int| 0 <= i < vals.len() implies #[trigger] kind_of(vals[i]) == schema[i] by {
            assert(i == 0);
        }
    }
}

impl Default for GetPaymentMethodRequest {
    fn default() -> (r: Self)
        ensures
            r.spec_values() == defaults(Self::spec_schema()),
    {
        let r = GetPaymentMethodRequest { method_id: 0 };
        assert(r.spec_values() =~= defaults(Self::spec_schema()));
        r
    }
}

#[derive(Clone, Debug)]
pub struct UpdatePaymentMethodRequest {
    pub method_id: i64,
    pub method_name: Option<String>,
    pub details: Option<String>,
}

impl ProtoMessage for UpdatePaymentMethodRequest {
    open spec fn spec_schema() -> Seq<Kind> {
        seq![Kind::Int64, Kind::OptStr, Kind::OptStr]
    }

    open spec fn spec_values(&self) -> Seq<ScalarValue> {
        seq![
            ScalarValue::Int64(self.method_id),
            ScalarValue::OptStr(opt_chars(self.method_name)),
            ScalarValue::OptStr(opt_chars(self.details)),
        ]
    }

    fn schema() -> (r: Vec<Kind>) {
        vec![Kind::Int64, Kind::OptStr, Kind::OptStr]
    }

    fn to_scalars(&self) -> (r: Vec<Scalar>) {
        let r = vec![
            Scalar::Int64(self.method_id),
            opt_str_scalar(&self.method_name),
            opt_str_scalar(&self.details),
        ];
        assert(values_of(r@) =~= self.spec_values());
        r
    }

    fn from_scalars(v: Vec<Scalar>) -> (r: Self) {
        let ghost vals = values_of(v@);
        proof {
            assert(kind_of(vals[0]) == Kind::Int64);
            assert(kind_of(vals[1]) == Kind::OptStr);
            assert(kind_of(vals[2]) == Kind::OptStr);
        }
        let mut v = v;
        let details = pop_opt_str(&mut v);
        let method_name = pop_opt_str(&mut v);
        let method_id = pop_int64(&mut v);
        let r = UpdatePaymentMethodRequest { method_id, method_name, details };
        assert(r.spec_values() =~= vals);
        r
    }

    proof fn lemma_schema(&self) {
        let vals = self.spec_values();
        let schema = Self::spec_schema();
        assert(vals.len() == 3 && schema.len() == 3);
        assert forall|i: int| 0 <= i < vals.len() implies #[trigger] kind_of(vals[i]) == schema[i] by {
            if i == 0 {} else if i == 1 {} else {}
        }
    }
}

impl Default for UpdatePaymentMethodRequest {
    fn default() -> (r: Self)
        ensures
            r.spec_values() == defaults(Self::spec_schema()),
    {
        let r = UpdatePaymentMethodRequest { method_id: 0, method_name: None, details: None };
        assert(r.spec_values() =~= defaults(Self::spec_schema()));
        r
    }
}

#[derive(Clone, Debug)]
pub struct DeletePaymentMethodRequest {
    pub method_id: i64,
}

impl ProtoMessage for DeletePaymentMethodRequest {
    open spec fn spec_schema() -> Seq<Kind> {
        seq![Kind::Int64]
    }

    open spec fn spec_values(&self) -> Seq<ScalarValue> {
        seq![
            ScalarValue::Int64(self.method_id),
        ]
    }

    fn schema() -> (r: Vec<Kind>) {
        vec![Kind::Int64]
    }

    fn to_scalars(&self) -> (r: Vec<Scalar>) {
        let r = vec![
            Scalar::Int64(self.method_id),
        ];
        assert(values_of(r@) =~= self.spec_values());
        r
    }

    fn from_scalars(v: Vec<Scalar>) -> (r: Self) {
        let ghost vals = values_of(v@);
        proof {
            assert(kind_of(vals[0]) == Kind::Int64);
        }
        let mut v = v;
        let method_id = pop_int64(&mut v);
        let r = DeletePaymentMethodRequest { method_id };
        assert(r.spec_values() =~= vals);
        r
    }

    proof fn lemma_schema(&self) {
        let vals = self.spec_values();
        let schema = Self::spec_schema();
        assert(vals.len() == 1 && schema.len() == 1);
        assert forall|i: int| 0 <= i < vals.len() implies #[trigger] kind_of(vals[i]) == schema[i] by {
            assert(i == 0);
        }
    }
}

impl Default for DeletePaymentMethodRequest {
    fn default() -> (r: Self)
        ensures
            r.spec_values() == defaults(Self::spec_schema()),
    {
        let r = DeletePaymentMethodRequest { method_id: 0 };
        assert(r.spec_values() =~= defaults(Self::spec_schema()));
        r
    }
}

#[derive(Clone, Debug)]
pub struct PaymentMethodResponse {
    pub method_id: i64,
    pub method_name: String,
    pub details: String,
}

impl ProtoMessage for PaymentMethodResponse {
    open spec fn spec_schema() -> Seq<Kind> {
        seq![Kind::Int64, Kind::Str, Kind::Str]
    }

    open spec fn spec_values(&self) -> Seq<ScalarValue> {
        seq![
            ScalarValue::Int64(self.method_id),
            ScalarValue::Str(self.method_name@),
            ScalarValue::Str(self.details@),
        ]
    }

    fn schema() -> (r: Vec<Kind>) {
        vec![Kind::Int64, Kind::Str, Kind::Str]
    }

    fn to_scalars(&self) -> (r: Vec<Scalar>) {
        let r = vec![
            Scalar::Int64(self.method_id),
            Scalar::Str(self.method_name.clone()),
            Scalar::Str(self.details.clone()),
        ];
        assert(values_of(r@) =~= self.spec_values());
        r
    }

    fn from_scalars(v: Vec<Scalar>) -> (r: Self) {
        let ghost vals = values_of(v@);
        proof {
            assert(kind_of(vals[0]) == Kind::Int64);
            assert(kind_of(vals[1]) == Kind::Str);
            assert(kind_of(vals[2]) == Kind::Str);
        }
        let mut v = v;
        let details = pop_str(&mut v);
        let method_name = pop_str(&mut v);
        let method_id = pop_int64(&mut v);
        let r = PaymentMethodResponse { method_id, method_name, details };
        assert(r.spec_values() =~= vals);
        r
    }

    proof fn lemma_schema(&self) {
        let vals = self.spec_values();
        let schema = Self::spec_schema();
        assert(vals.len() == 3 && schema.len() == 3);
        assert forall|i: int| 0 <= i < vals.len() implies #[trigger] kind_of(vals[i]) == schema[i] by {
            if i == 0 {} else if i == 1 {} else {}
        }
    }
}

impl Default for PaymentMethodResponse {
    fn default() -> (r: Self)
        ensures
            r.spec_values() == defaults(Self::spec_schema()),
    {
        let r = PaymentMethodResponse { method_id: 0, method_name: String::new(), details: String::new() };
        assert(r.spec_values() =~= defaults(Self::spec_schema()));
        r
    }
}

#[derive(Clone, Debug)]
pub struct PaymentMethodsResponse {
    pub items: Vec<PaymentMethodResponse>,
}

impl ProtoList for PaymentMethodsResponse {
    type Item = PaymentMethodResponse;

    open spec fn spec_items(&self) -> Seq<PaymentMethodResponse> {
        self.items@
    }

    fn items(&self) -> (r: &Vec<PaymentMethodResponse>) {
        &self.items
    }

    fn from_items(items: Vec<PaymentMethodResponse>) -> (r: Self) {
        PaymentMethodsResponse { items }
    }
}

impl Default for PaymentMethodsResponse {
    fn default() -> (r: Self)
        ensures
            r.spec_items() == Seq::<PaymentMethodResponse>::empty(),
    {
        PaymentMethodsResponse { items: Vec::new() }
    }
}

} // verus!
