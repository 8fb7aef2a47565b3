//! Each method of the service with the messages it takes and gives.

use vstd::prelude::*;
use crate::message::ProtoMessage;
use crate::service::Method;

verus! {

/// A unary method of the service: the message it takes and the message it
/// gives back.
pub trait Rpc {
    /// The request message.
    type Request: ProtoMessage;

    /// The response message.
    type Response;

    /// The method.
    spec fn spec_method() -> Method;

    /// The method.
    fn method() -> (m: Method)
        ensures
            m == Self::spec_method(),
    ;
}

/// `CreateCartItem`: takes `CreateCartItemRequest`, gives `CartItemsResponse`.
#[derive(Clone, Copy, Debug)]
pub struct CreateCartItem;

impl Rpc for CreateCartItem {
    type Request = crate::messages::CreateCartItemRequest;

    type Response = crate::messages::CartItemsResponse;

    open spec fn spec_method() -> Method {
        Method::CreateCartItem
    }

    fn method() -> (m: Method) {
        Method::CreateCartItem
    }
}

/// `GetCartItems`: takes `GetCartItemsRequest`, gives `CartItemsResponse`.
#[derive(Clone, Copy, Debug)]
pub struct GetCartItems;

impl Rpc for GetCartItems {
    type Request = crate::messages::GetCartItemsRequest;

    type Response = crate::messages::CartItemsResponse;

    open spec fn spec_method() -> Method {
        Method::GetCartItems
    }

    fn method() -> (m: Method) {
        Method::GetCartItems
    }
}

/// `UpdateCartItem`: takes `UpdateCartItemRequest`, gives `CartItemsResponse`.
#[derive(Clone, Copy, Debug)]
pub struct UpdateCartItem;

impl Rpc for UpdateCartItem {
    type Request = crate::messages::UpdateCartItemRequest;

    type Response = crate::messages::CartItemsResponse;

    open spec fn spec_method() -> Method {
        Method::UpdateCartItem
    }

    fn method() -> (m: Method) {
        Method::UpdateCartItem
    }
}

/// `DeleteCartItem`: takes `DeleteCartItemRequest`, gives `CartItemsResponse`.
#[derive(Clone, Copy, Debug)]
pub struct DeleteCartItem;

impl Rpc for DeleteCartItem {
    type Request = crate::messages::DeleteCartItemRequest;

    type Response = crate::messages::CartItemsResponse;

    open spec fn spec_method() -> Method {
        Method::DeleteCartItem
    }

    fn method() -> (m: Method) {
        Method::DeleteCartItem
    }
}

/// `CreateProduct`: takes `CreateProductRequest`, gives `ProductsResponse`.
#[derive(Clone, Copy, Debug)]
pub struct CreateProduct;

impl Rpc for CreateProduct {
    type Request = crate::messages::CreateProductRequest;

    type Response = crate::messages::ProductsResponse;

    open spec fn spec_method() -> Method {
        Method::CreateProduct
    }

    fn method() -> (m: Method) {
        Method::CreateProduct
    }
}

/// `SearchProduct`: takes `SearchProductRequest`, gives `ProductsResponse`.
#[derive(Clone, Copy, Debug)]
pub struct SearchProduct;

impl Rpc for SearchProduct {
    type Request = crate::messages::SearchProductRequest;

    type Response = crate::messages::ProductsResponse;

    open spec fn spec_method() -> Method {
        Method::SearchProduct
    }

    fn method() -> (m: Method) {
        Method::SearchProduct
    }
}

/// `UpdateProduct`: takes `UpdateProductRequest`, gives `ProductsResponse`.
#[derive(Clone, Copy, Debug)]
pub struct UpdateProduct;

impl Rpc for UpdateProduct {
    type Request = crate::messages::UpdateProductRequest;

    type Response = crate::messages::ProductsResponse;

    open spec fn spec_method() -> Method {
        Method::UpdateProduct
    }

    fn method() -> (m: Method) {
        Method::UpdateProduct
    }
}

/// `DeleteProduct`: takes `DeleteProductRequest`, gives `ProductsResponse`.
#[derive(Clone, Copy, Debug)]
pub struct DeleteProduct;

impl Rpc for DeleteProduct {
    type Request = crate::messages::DeleteProductRequest;

    type Response = crate::messages::ProductsResponse;

    open spec fn spec_method() -> Method {
        Method::DeleteProduct
    }

    fn method() -> (m: Method) {
        Method::DeleteProduct
    }
}

/// `CreateUser`: takes `CreateUserRequest`, gives `UsersResponse`.
#[derive(Clone, Copy, Debug)]
pub struct CreateUser;

impl Rpc for CreateUser {
    type Request = crate::messages::CreateUserRequest;

    type Response = crate::messages::UsersResponse;

    open spec fn spec_method() -> Method {
        Method::CreateUser
    }

    fn method() -> (m: Method) {
        Method::CreateUser
    }
}

/// `GetUser`: takes `GetUserRequest`, gives `UserResponse`.
#[derive(Clone, Copy, Debug)]
pub struct GetUser;

impl Rpc for GetUser {
    type Request = crate::messages::GetUserRequest;

    type Response = crate::messages::UserResponse;

    open spec fn spec_method() -> Method {
        Method::GetUser
    }

    fn method() -> (m: Method) {
        Method::GetUser
    }
}

/// `UpdateUser`: takes `UpdateUserRequest`, gives `UsersResponse`.
#[derive(Clone, Copy, Debug)]
pub struct UpdateUser;

impl Rpc for UpdateUser {
    type Request = crate::messages::UpdateUserRequest;

    type Response = crate::messages::UsersResponse;

    open spec fn spec_method() -> Method {
        Method::UpdateUser
    }

    fn method() -> (m: Method) {
        Method::UpdateUser
    }
}

/// `DeleteUser`: takes `DeleteUserRequest`, gives `UsersResponse`.
#[derive(Clone, Copy, Debug)]
pub struct DeleteUser;

impl Rpc for DeleteUser {
    type Request = crate::messages::DeleteUserRequest;

    type Response = crate::messages::UsersResponse;

    open spec fn spec_method() -> Method {
        Method::DeleteUser
    }

    fn method() -> (m: Method) {
        Method::DeleteUser
    }
}

/// `CreateCategory`: takes `CreateCategoryRequest`, gives `CategoriesResponse`.
#[derive(Clone, Copy, Debug)]
pub struct CreateCategory;

impl Rpc for CreateCategory {
    type Request = crate::messages::CreateCategoryRequest;

    type Response = crate::messages::CategoriesResponse;

    open spec fn spec_method() -> Method {
        Method::CreateCategory
    }

    fn method() -> (m: Method) {
        Method::CreateCategory
    }
}

/// `GetCategory`: takes `GetCategoryRequest`, gives `CategoryResponse`.
#[derive(Clone, Copy, Debug)]
pub struct GetCategory;

impl Rpc for GetCategory {
    type Request = crate::messages::GetCategoryRequest;

    type Response = crate::messages::CategoryResponse;

    open spec fn spec_method() -> Method {
        Method::GetCategory
    }

    fn method() -> (m: Method) {
        Method::GetCategory
    }
}

/// `UpdateCategory`: takes `UpdateCategoryRequest`, gives `CategoriesResponse`.
#[derive(Clone, Copy, Debug)]
pub struct UpdateCategory;

impl Rpc for UpdateCategory {
    type Request = crate::messages::UpdateCategoryRequest;

    type Response = crate::messages::CategoriesResponse;

    open spec fn spec_method() -> Method {
        Method::UpdateCategory
    }

    fn method() -> (m: Method) {
        Method::UpdateCategory
    }
}

/// `DeleteCategory`: takes `DeleteCategoryRequest`, gives `CategoriesResponse`.
#[derive(Clone, Copy, Debug)]
pub struct DeleteCategory;

impl Rpc for DeleteCategory {
    type Request = crate::messages::DeleteCategoryRequest;

    type Response = crate::messages::CategoriesResponse;

    open spec fn spec_method() -> Method {
        Method::DeleteCategory
    }

    fn method() -> (m: Method) {
        Method::DeleteCategory
    }
}

/// `CreateOrder`: takes `CreateOrderRequest`, gives `OrdersResponse`.
#[derive(Clone, Copy, Debug)]
pub struct CreateOrder;

impl Rpc for CreateOrder {
    type Request = crate::messages::CreateOrderRequest;

    type Response = crate::messages::OrdersResponse;

    open spec fn spec_method() -> Method {
        Method::CreateOrder
    }

    fn method() -> (m: Method) {
        Method::CreateOrder
    }
}

/// `GetOrder`: takes `GetOrderRequest`, gives `OrderResponse`.
#[derive(Clone, Copy, Debug)]
pub struct GetOrder;

impl Rpc for GetOrder {
    type Request = crate::messages::GetOrderRequest;

    type Response = crate::messages::OrderResponse;

    open spec fn spec_method() -> Method {
        Method::GetOrder
    }

    fn method() -> (m: Method) {
        Method::GetOrder
    }
}

/// `UpdateOrder`: takes `UpdateOrderRequest`, gives `OrdersResponse`.
#[derive(Clone, Copy, Debug)]
pub struct UpdateOrder;

impl Rpc for UpdateOrder {
    type Request = crate::messages::UpdateOrderRequest;

    type Response = crate::messages::OrdersResponse;

    open spec fn spec_method() -> Method {
        Method::UpdateOrder
    }

    fn method() -> (m: Method) {
        Method::UpdateOrder
    }
}

/// `DeleteOrder`: takes `DeleteOrderRequest`, gives `OrdersResponse`.
#[derive(Clone, Copy, Debug)]
pub struct DeleteOrder;

impl Rpc for DeleteOrder {
    type Request = crate::messages::DeleteOrderRequest;

    type Response = crate::messages::OrdersResponse;

    open spec fn spec_method() -> Method {
        Method::DeleteOrder
    }

    fn method() -> (m: Method) {
        Method::DeleteOrder
    }
}

/// `CreateOrderDetail`: takes `CreateOrderDetailRequest`, gives `OrderDetailsResponse`.
#[derive(Clone, Copy, Debug)]
pub struct CreateOrderDetail;

impl Rpc for CreateOrderDetail {
    type Request = crate::messages::CreateOrderDetailRequest;

    type Response = crate::messages::OrderDetailsResponse;

    open spec fn spec_method() -> Method {
        Method::CreateOrderDetail
    }

    fn method() -> (m: Method) {
        Method::CreateOrderDetail
    }
}

/// `GetOrderDetail`: takes `GetOrderDetailRequest`, gives `OrderDetailResponse`.
#[derive(Clone, Copy, Debug)]
pub struct GetOrderDetail;

impl Rpc for GetOrderDetail {
    type Request = crate::messages::GetOrderDetailRequest;

    type Response = crate::messages::OrderDetailResponse;

    open spec fn spec_method() -> Method {
        Method::GetOrderDetail
    }

    fn method() -> (m: Method) {
        Method::GetOrderDetail
    }
}

/// `UpdateOrderDetail`: takes `UpdateOrderDetailRequest`, gives `OrderDetailsResponse`.
#[derive(Clone, Copy, Debug)]
pub struct UpdateOrderDetail;

impl Rpc for UpdateOrderDetail {
    type Request = crate::messages::UpdateOrderDetailRequest;

    type Response = crate::messages::OrderDetailsResponse;

    open spec fn spec_method() -> Method {
        Method::UpdateOrderDetail
    }

    fn method() -> (m: Method) {
        Method::UpdateOrderDetail
    }
}

/// `DeleteOrderDetail`: takes `DeleteOrderDetailRequest`, gives `OrderDetailsResponse`.
#[derive(Clone, Copy, Debug)]
pub struct DeleteOrderDetail;

impl Rpc for DeleteOrderDetail {
    type Request = crate::messages::DeleteOrderDetailRequest;

    type Response = crate::messages::OrderDetailsResponse;

    open spec fn spec_method() -> Method {
        Method::DeleteOrderDetail
    }

    fn method() -> (m: Method) {
        Method::DeleteOrderDetail
    }
}

/// `CreateReview`: takes `CreateReviewRequest`, gives `ReviewsResponse`.
#[derive(Clone, Copy, Debug)]
pub struct CreateReview;

impl Rpc for CreateReview {
    type Request = crate::messages::CreateReviewRequest;

    type Response = crate::messages::ReviewsResponse;

    open spec fn spec_method() -> Method {
        Method::CreateReview
    }

    fn method() -> (m: Method) {
        Method::CreateReview
    }
}

/// `GetReview`: takes `GetReviewRequest`, gives `ReviewResponse`.
#[derive(Clone, Copy, Debug)]
pub struct GetReview;

impl Rpc for GetReview {
    type Request = crate::messages::GetReviewRequest;

    type Response = crate::messages::ReviewResponse;

    open spec fn spec_method() -> Method {
        Method::GetReview
    }

    fn method() -> (m: Method) {
        Method::GetReview
    }
}

/// `UpdateReview`: takes `UpdateReviewRequest`, gives `ReviewsResponse`.
#[derive(Clone, Copy, Debug)]
pub struct UpdateReview;

impl Rpc for UpdateReview {
    type Request = crate::messages::UpdateReviewRequest;

    type Response = crate::messages::ReviewsResponse;

    open spec fn spec_method() -> Method {
        Method::UpdateReview
    }

    fn method() -> (m: Method) {
        Method::UpdateReview
    }
}

/// `DeleteReview`: takes `DeleteReviewRequest`, gives `ReviewsResponse`.
#[derive(Clone, Copy, Debug)]
pub struct DeleteReview;

impl Rpc for DeleteReview {
    type Request = crate::messages::DeleteReviewRequest;

    type Response = crate::messages::ReviewsResponse;

    open spec fn spec_method() -> Method {
        Method::DeleteReview
    }

    fn method() -> (m: Method) {
        Method::DeleteReview
    }
}

/// `CreateProductImage`: takes `CreateProductImageRequest`, gives `ProductImagesResponse`.
#[derive(Clone, Copy, Debug)]
pub struct CreateProductImage;

impl Rpc for CreateProductImage {
    type Request = crate::messages::CreateProductImageRequest;

    type Response = crate::messages::ProductImagesResponse;

    open spec fn spec_method() -> Method {
        Method::CreateProductImage
    }

    fn method() -> (m: Method) {
        Method::CreateProductImage
    }
}

/// `GetProductImage`: takes `GetProductImageRequest`, gives `ProductImageResponse`.
#[derive(Clone, Copy, Debug)]
pub struct GetProductImage;

impl Rpc for GetProductImage {
    type Request = crate::messages::GetProductImageRequest;

    type Response = crate::messages::ProductImageResponse;

    open spec fn spec_method() -> Method {
        Method::GetProductImage
    }

    fn method() -> (m: Method) {
        Method::GetProductImage
    }
}

/// `UpdateProductImage`: takes `UpdateProductImageRequest`, gives `ProductImagesResponse`.
#[derive(Clone, Copy, Debug)]
pub struct UpdateProductImage;

impl Rpc for UpdateProductImage {
    type Request = crate::messages::UpdateProductImageRequest;

    type Response = crate::messages::ProductImagesResponse;

    open spec fn spec_method() -> Method {
        Method::UpdateProductImage
    }

    fn method() -> (m: Method) {
        Method::UpdateProductImage
    }
}

/// `DeleteProductImage`: takes `DeleteProductImageRequest`, gives `ProductImagesResponse`.
#[derive(Clone, Copy, Debug)]
pub struct DeleteProductImage;

impl Rpc for DeleteProductImage {
    type Request = crate::messages::DeleteProductImageRequest;

    type Response = crate::messages::ProductImagesResponse;

    open spec fn spec_method() -> Method {
        Method::DeleteProductImage
    }

    fn method() -> (m: Method) {
        Method::DeleteProductImage
    }
}

/// `CreateSupplier`: takes `CreateSupplierRequest`, gives `SuppliersResponse`.
#[derive(Clone, Copy, Debug)]
pub struct CreateSupplier;

impl Rpc for CreateSupplier {
    type Request = crate::messages::CreateSupplierRequest;

    type Response = crate::messages::SuppliersResponse;

    open spec fn spec_method() -> Method {
        Method::CreateSupplier
    }

    fn method() -> (m: Method) {
        Method::CreateSupplier
    }
}

/// `GetSupplier`: takes `GetSupplierRequest`, gives `SupplierResponse`.
#[derive(Clone, Copy, Debug)]
pub struct GetSupplier;

impl Rpc for GetSupplier {
    type Request = crate::messages::GetSupplierRequest;

    type Response = crate::messages::SupplierResponse;

    open spec fn spec_method() -> Method {
        Method::GetSupplier
    }

    fn method() -> (m: Method) {
        Method::GetSupplier
    }
}

/// `UpdateSupplier`: takes `UpdateSupplierRequest`, gives `SuppliersResponse`.
#[derive(Clone, Copy, Debug)]
pub struct UpdateSupplier;

impl Rpc for UpdateSupplier {
    type Request = crate::messages::UpdateSupplierRequest;

    type Response = crate::messages::SuppliersResponse;

    open spec fn spec_method() -> Method {
        Method::UpdateSupplier
    }

    fn method() -> (m: Method) {
        Method::UpdateSupplier
    }
}

/// `DeleteSupplier`: takes `DeleteSupplierRequest`, gives `SuppliersResponse`.
#[derive(Clone, Copy, Debug)]
pub struct DeleteSupplier;

impl Rpc for DeleteSupplier {
    type Request = crate::messages::DeleteSupplierRequest;

    type Response = crate::messages::SuppliersResponse;

    open spec fn spec_method() -> Method {
        Method::DeleteSupplier
    }

    fn method() -> (m: Method) {
        Method::DeleteSupplier
    }
}

/// `CreateInventoryItem`: takes `CreateInventoryItemRequest`, gives `InventoryItemsResponse`.
#[derive(Clone, Copy, Debug)]
pub struct CreateInventoryItem;

impl Rpc for CreateInventoryItem {
    type Request = crate::messages::CreateInventoryItemRequest;

    type Response = crate::messages::InventoryItemsResponse;

    open spec fn spec_method() -> Method {
        Method::CreateInventoryItem
    }

    fn method() -> (m: Method) {
        Method::CreateInventoryItem
    }
}

/// `GetInventoryItem`: takes `GetInventoryItemRequest`, gives `InventoryItemResponse`.
#[derive(Clone, Copy, Debug)]
pub struct GetInventoryItem;

impl Rpc for GetInventoryItem {
    type Request = crate::messages::GetInventoryItemRequest;

    type Response = crate::messages::InventoryItemResponse;

    open spec fn spec_method() -> Method {
        Method::GetInventoryItem
    }

    fn method() -> (m: Method) {
        Method::GetInventoryItem
    }
}

/// `UpdateInventoryItem`: takes `UpdateInventoryItemRequest`, gives `InventoryItemsResponse`.
#[derive(Clone, Copy, Debug)]
pub struct UpdateInventoryItem;

impl Rpc for UpdateInventoryItem {
    type Request = crate::messages::UpdateInventoryItemRequest;

    type Response = crate::messages::InventoryItemsResponse;

    open spec fn spec_method() -> Method {
        Method::UpdateInventoryItem
    }

    fn method() -> (m: Method) {
        Method::UpdateInventoryItem
    }
}

/// `DeleteInventoryItem`: takes `DeleteInventoryItemRequest`, gives `InventoryItemsResponse`.
#[derive(Clone, Copy, Debug)]
pub struct DeleteInventoryItem;

impl Rpc for DeleteInventoryItem {
    type Request = crate::messages::DeleteInventoryItemRequest;

    type Response = crate::messages::InventoryItemsResponse;

    open spec fn spec_method() -> Method {
        Method::DeleteInventoryItem
    }

    fn method() -> (m: Method) {
        Method::DeleteInventoryItem
    }
}

/// `CreateWishlistItem`: takes `CreateWishlistItemRequest`, gives `WishlistItemsResponse`.
#[derive(Clone, Copy, Debug)]
pub struct CreateWishlistItem;

impl Rpc for CreateWishlistItem {
    type Request = crate::messages::CreateWishlistItemRequest;

    type Response = crate::messages::WishlistItemsResponse;

    open spec fn spec_method() -> Method {
        Method::CreateWishlistItem
    }

    fn method() -> (m: Method) {
        Method::CreateWishlistItem
    }
}

/// `GetWishlistItem`: takes `GetWishlistItemRequest`, gives `WishlistItemResponse`.
#[derive(Clone, Copy, Debug)]
pub struct GetWishlistItem;

impl Rpc for GetWishlistItem {
    type Request = crate::messages::GetWishlistItemRequest;

    type Response = crate::messages::WishlistItemResponse;

    open spec fn spec_method() -> Method {
        Method::GetWishlistItem
    }

    fn method() -> (m: Method) {
        Method::GetWishlistItem
    }
}

/// `UpdateWishlistItem`: takes `UpdateWishlistItemRequest`, gives `WishlistItemsResponse`.
#[derive(Clone, Copy, Debug)]
pub struct UpdateWishlistItem;

impl Rpc for UpdateWishlistItem {
    type Request = crate::messages::UpdateWishlistItemRequest;

    type Response = crate::messages::WishlistItemsResponse;

    open spec fn spec_method() -> Method {
        Method::UpdateWishlistItem
    }

    fn method() -> (m: Method) {
        Method::UpdateWishlistItem
    }
}

/// `DeleteWishlistItem`: takes `DeleteWishlistItemRequest`, gives `WishlistItemsResponse`.
#[derive(Clone, Copy, Debug)]
pub struct DeleteWishlistItem;

impl Rpc for DeleteWishlistItem {
    type Request = crate::messages::DeleteWishlistItemRequest;

    type Response = crate::messages::WishlistItemsResponse;

    open spec fn spec_method() -> Method {
        Method::DeleteWishlistItem
    }

    fn method() -> (m: Method) {
        Method::DeleteWishlistItem
    }
}

/// `CreateProductAttribute`: takes `CreateProductAttributeRequest`, gives `ProductAttributesResponse`.
#[derive(Clone, Copy, Debug)]
pub struct CreateProductAttribute;

impl Rpc for CreateProductAttribute {
    type Request = crate::messages::CreateProductAttributeRequest;

    type Response = crate::messages::ProductAttributesResponse;

    open spec fn spec_method() -> Method {
        Method::CreateProductAttribute
    }

    fn method() -> (m: Method) {
        Method::CreateProductAttribute
    }
}

/// `GetProductAttribute`: takes `GetProductAttributeRequest`, gives `ProductAttributeResponse`.
#[derive(Clone, Copy, Debug)]
pub struct GetProductAttribute;

impl Rpc for GetProductAttribute {
    type Request = crate::messages::GetProductAttributeRequest;

    type Response = crate::messages::ProductAttributeResponse;

    open spec fn spec_method() -> Method {
        Method::GetProductAttribute
    }

    fn method() -> (m: Method) {
        Method::GetProductAttribute
    }
}

/// `UpdateProductAttribute`: takes `UpdateProductAttributeRequest`, gives `ProductAttributesResponse`.
#[derive(Clone, Copy, Debug)]
pub struct UpdateProductAttribute;

impl Rpc for UpdateProductAttribute {
    type Request = crate::messages::UpdateProductAttributeRequest;

    type Response = crate::messages::ProductAttributesResponse;

    open spec fn spec_method() -> Method {
        Method::UpdateProductAttribute
    }

    fn method() -> (m: Method) {
        Method::UpdateProductAttribute
    }
}

/// `DeleteProductAttribute`: takes `DeleteProductAttributeRequest`, gives `ProductAttributesResponse`.
#[derive(Clone, Copy, Debug)]
pub struct DeleteProductAttribute;

impl Rpc for DeleteProductAttribute {
    type Request = crate::messages::DeleteProductAttributeRequest;

    type Response = crate::messages::ProductAttributesResponse;

    open spec fn spec_method() -> Method {
        Method::DeleteProductAttribute
    }

    fn method() -> (m: Method) {
        Method::DeleteProductAttribute
    }
}

/// `CreateDiscount`: takes `CreateDiscountRequest`, gives `DiscountsResponse`.
#[derive(Clone, Copy, Debug)]
pub struct CreateDiscount;

impl Rpc for CreateDiscount {
    type Request = crate::messages::CreateDiscountRequest;

    type Response = crate::messages::DiscountsResponse;

    open spec fn spec_method() -> Method {
        Method::CreateDiscount
    }

    fn method() -> (m: Method) {
        Method::CreateDiscount
    }
}

/// `GetDiscount`: takes `GetDiscountRequest`, gives `DiscountResponse`.
#[derive(Clone, Copy, Debug)]
pub struct GetDiscount;

impl Rpc for GetDiscount {
    type Request = crate::messages::GetDiscountRequest;

    type Response = crate::messages::DiscountResponse;

    open spec fn spec_method() -> Method {
        Method::GetDiscount
    }

    fn method() -> (m: Method) {
        Method::GetDiscount
    }
}

/// `UpdateDiscount`: takes `UpdateDiscountRequest`, gives `DiscountsResponse`.
#[derive(Clone, Copy, Debug)]
pub struct UpdateDiscount;

impl Rpc for UpdateDiscount {
    type Request = crate::messages::UpdateDiscountRequest;

    type Response = crate::messages::DiscountsResponse;

    open spec fn spec_method() -> Method {
        Method::UpdateDiscount
    }

    fn method() -> (m: Method) {
        Method::UpdateDiscount
    }
}

/// `DeleteDiscount`: takes `DeleteDiscountRequest`, gives `DiscountsResponse`.
#[derive(Clone, Copy, Debug)]
pub struct DeleteDiscount;

impl Rpc for DeleteDiscount {
    type Request = crate::messages::DeleteDiscountRequest;

    type Response = crate::messages::DiscountsResponse;

    open spec fn spec_method() -> Method {
        Method::DeleteDiscount
    }

    fn method() -> (m: Method) {
        Method::DeleteDiscount
    }
}

/// `CreateShippingMethod`: takes `CreateShippingMethodRequest`, gives `ShippingMethodsResponse`.
#[derive(Clone, Copy, Debug)]
pub struct CreateShippingMethod;

impl Rpc for CreateShippingMethod {
    type Request = crate::messages::CreateShippingMethodRequest;

    type Response = crate::messages::ShippingMethodsResponse;

    open spec fn spec_method() -> Method {
        Method::CreateShippingMethod
    }

    fn method() -> (m: Method) {
        Method::CreateShippingMethod
    }
}

/// `GetShippingMethod`: takes `GetShippingMethodRequest`, gives `ShippingMethodResponse`.
#[derive(Clone, Copy, Debug)]
pub struct GetShippingMethod;

impl Rpc for GetShippingMethod {
    type Request = crate::messages::GetShippingMethodRequest;

    type Response = crate::messages::ShippingMethodResponse;

    open spec fn spec_method() -> Method {
        Method::GetShippingMethod
    }

    fn method() -> (m: Method) {
        Method::GetShippingMethod
    }
}

/// `UpdateShippingMethod`: takes `UpdateShippingMethodRequest`, gives `ShippingMethodsResponse`.
#[derive(Clone, Copy, Debug)]
pub struct UpdateShippingMethod;

impl Rpc for UpdateShippingMethod {
    type Request = crate::messages::UpdateShippingMethodRequest;

    type Response = crate::messages::ShippingMethodsResponse;

    open spec fn spec_method() -> Method {
        Method::UpdateShippingMethod
    }

    fn method() -> (m: Method) {
        Method::UpdateShippingMethod
    }
}

/// `DeleteShippingMethod`: takes `DeleteShippingMethodRequest`, gives `ShippingMethodsResponse`.
#[derive(Clone, Copy, Debug)]
pub struct DeleteShippingMethod;

impl Rpc for DeleteShippingMethod {
    type Request = crate::messages::DeleteShippingMethodRequest;

    type Response = crate::messages::ShippingMethodsResponse;

    open spec fn spec_method() -> Method {
        Method::DeleteShippingMethod
    }

    fn method() -> (m: Method) {
        Method::DeleteShippingMethod
    }
}

/// `CreateUserRole`: takes `CreateUserRoleRequest`, gives `UserRolesResponse`.
#[derive(Clone, Copy, Debug)]
pub struct CreateUserRole;

impl Rpc for CreateUserRole {
    type Request = crate::messages::CreateUserRoleRequest;

    type Response = crate::messages::UserRolesResponse;

    open spec fn spec_method() -> Method {
        Method::CreateUserRole
    }

    fn method() -> (m: Method) {
        Method::CreateUserRole
    }
}

/// `GetUserRole`: takes `GetUserRoleRequest`, gives `UserRoleResponse`.
#[derive(Clone, Copy, Debug)]
pub struct GetUserRole;

impl Rpc for GetUserRole {
    type Request = crate::messages::GetUserRoleRequest;

    type Response = crate::messages::UserRoleResponse;

    open spec fn spec_method() -> Method {
        Method::GetUserRole
    }

    fn method() -> (m: Method) {
        Method::GetUserRole
    }
}

/// `UpdateUserRole`: takes `UpdateUserRoleRequest`, gives `UserRolesResponse`.
#[derive(Clone, Copy, Debug)]
pub struct UpdateUserRole;

impl Rpc for UpdateUserRole {
    type Request = crate::messages::UpdateUserRoleRequest;

    type Response = crate::messages::UserRolesResponse;

    open spec fn spec_method() -> Method {
        Method::UpdateUserRole
    }

    fn method() -> (m: Method) {
        Method::UpdateUserRole
    }
}

/// `DeleteUserRole`: takes `DeleteUserRoleRequest`, gives `UserRolesResponse`.
#[derive(Clone, Copy, Debug)]
pub struct DeleteUserRole;

impl Rpc for DeleteUserRole {
    type Request = crate::messages::DeleteUserRoleRequest;

    type Response = crate::messages::UserRolesResponse;

    open spec fn spec_method() -> Method {
        Method::DeleteUserRole
    }

    fn method() -> (m: Method) {
        Method::DeleteUserRole
    }
}

/// `CreateUserRolesMapping`: takes `CreateUserRolesMappingRequest`, gives `UserRolesMappingsResponse`.
#[derive(Clone, Copy, Debug)]
pub struct CreateUserRolesMapping;

impl Rpc for CreateUserRolesMapping {
    type Request = crate::messages::CreateUserRolesMappingRequest;

    type Response = crate::messages::UserRolesMappingsResponse;

    open spec fn spec_method() -> Method {
        Method::CreateUserRolesMapping
    }

    fn method() -> (m: Method) {
        Method::CreateUserRolesMapping
    }
}

/// `GetUserRolesMapping`: takes `GetUserRolesMappingRequest`, gives `UserRolesMappingResponse`.
#[derive(Clone, Copy, Debug)]
pub struct GetUserRolesMapping;

impl Rpc for GetUserRolesMapping {
    type Request = crate::messages::GetUserRolesMappingRequest;

    type Response = crate::messages::UserRolesMappingResponse;

    open spec fn spec_method() -> Method {
        Method::GetUserRolesMapping
    }

    fn method() -> (m: Method) {
        Method::GetUserRolesMapping
    }
}

/// `UpdateUserRolesMapping`: takes `UpdateUserRolesMappingRequest`, gives `UserRolesMappingsResponse`.
#[derive(Clone, Copy, Debug)]
pub struct UpdateUserRolesMapping;

impl Rpc for UpdateUserRolesMapping {
    type Request = crate::messages::UpdateUserRolesMappingRequest;

    type Response = crate::messages::UserRolesMappingsResponse;

    open spec fn spec_method() -> Method {
        Method::UpdateUserRolesMapping
    }

    fn method() -> (m: Method) {
        Method::UpdateUserRolesMapping
    }
}

/// `DeleteUserRolesMapping`: takes `DeleteUserRolesMappingRequest`, gives `UserRolesMappingsResponse`.
#[derive(Clone, Copy, Debug)]
pub struct DeleteUserRolesMapping;

impl Rpc for DeleteUserRolesMapping {
    type Request = crate::messages::DeleteUserRolesMappingRequest;

    type Response = crate::messages::UserRolesMappingsResponse;

    open spec fn spec_method() -> Method {
        Method::DeleteUserRolesMapping
    }

    fn method() -> (m: Method) {
        Method::DeleteUserRolesMapping
    }
}

/// `CreateTransaction`: takes `CreateTransactionRequest`, gives `TransactionsResponse`.
#[derive(Clone, Copy, Debug)]
pub struct CreateTransaction;

impl Rpc for CreateTransaction {
    type Request = crate::messages::CreateTransactionRequest;

    type Response = crate::messages::TransactionsResponse;

    open spec fn spec_method() -> Method {
        Method::CreateTransaction
    }

    fn method() -> (m: Method) {
        Method::CreateTransaction
    }
}

/// `GetTransaction`: takes `GetTransactionRequest`, gives `TransactionResponse`.
#[derive(Clone, Copy, Debug)]
pub struct GetTransaction;

impl Rpc for GetTransaction {
    type Request = crate::messages::GetTransactionRequest;

    type Response = crate::messages::TransactionResponse;

    open spec fn spec_method() -> Method {
        Method::GetTransaction
    }

    fn method() -> (m: Method) {
        Method::GetTransaction
    }
}

/// `UpdateTransaction`: takes `UpdateTransactionRequest`, gives `TransactionsResponse`.
#[derive(Clone, Copy, Debug)]
pub struct UpdateTransaction;

impl Rpc for UpdateTransaction {
    type Request = crate::messages::UpdateTransactionRequest;

    type Response = crate::messages::TransactionsResponse;

    open spec fn spec_method() -> Method {
        Method::UpdateTransaction
    }

    fn method() -> (m: Method) {
        Method::UpdateTransaction
    }
}

/// `DeleteTransaction`: takes `DeleteTransactionRequest`, gives `TransactionsResponse`.
#[derive(Clone, Copy, Debug)]
pub struct DeleteTransaction;

impl Rpc for DeleteTransaction {
    type Request = crate::messages::DeleteTransactionRequest;

    type Response = crate::messages::TransactionsResponse;

    open spec fn spec_method() -> Method {
        Method::DeleteTransaction
    }

    fn method() -> (m: Method) {
        Method::DeleteTransaction
    }
}

/// `CreateNewsletterSubscriber`: takes `CreateNewsletterSubscriberRequest`, gives `NewsletterSubscribersResponse`.
#[derive(Clone, Copy, Debug)]
pub struct CreateNewsletterSubscriber;

impl Rpc for CreateNewsletterSubscriber {
    type Request = crate::messages::CreateNewsletterSubscriberRequest;

    type Response = crate::messages::NewsletterSubscribersResponse;

    open spec fn spec_method() -> Method {
        Method::CreateNewsletterSubscriber
    }

    fn method() -> (m: Method) {
        Method::CreateNewsletterSubscriber
    }
}

/// `GetNewsletterSubscriber`: takes `GetNewsletterSubscriberRequest`, gives `NewsletterSubscriberResponse`.
#[derive(Clone, Copy, Debug)]
pub struct GetNewsletterSubscriber;

impl Rpc for GetNewsletterSubscriber {
    type Request = crate::messages::GetNewsletterSubscriberRequest;

    type Response = crate::messages::NewsletterSubscriberResponse;

    open spec fn spec_method() -> Method {
        Method::GetNewsletterSubscriber
    }

    fn method() -> (m: Method) {
        Method::GetNewsletterSubscriber
    }
}

/// `UpdateNewsletterSubscriber`: takes `UpdateNewsletterSubscriberRequest`, gives `NewsletterSubscribersResponse`.
#[derive(Clone, Copy, Debug)]
pub struct UpdateNewsletterSubscriber;

impl Rpc for UpdateNewsletterSubscriber {
    type Request = crate::messages::UpdateNewsletterSubscriberRequest;

    type Response = crate::messages::NewsletterSubscribersResponse;

    open spec fn spec_method() -> Method {
        Method::UpdateNewsletterSubscriber
    }

    fn method() -> (m: Method) {
        Method::UpdateNewsletterSubscriber
    }
}

/// `DeleteNewsletterSubscriber`: takes `DeleteNewsletterSubscriberRequest`, gives `NewsletterSubscribersResponse`.
#[derive(Clone, Copy, Debug)]
pub struct DeleteNewsletterSubscriber;

impl Rpc for DeleteNewsletterSubscriber {
    type Request = crate::messages::DeleteNewsletterSubscriberRequest;

    type Response = crate::messages::NewsletterSubscribersResponse;

    open spec fn spec_method() -> Method {
        Method::DeleteNewsletterSubscriber
    }

    fn method() -> (m: Method) {
        Method::DeleteNewsletterSubscriber
    }
}

/// `CreateProductRating`: takes `CreateProductRatingRequest`, gives `ProductRatingsResponse`.
#[derive(Clone, Copy, Debug)]
pub struct CreateProductRating;

impl Rpc for CreateProductRating {
    type Request = crate::messages::CreateProductRatingRequest;

    type Response = crate::messages::ProductRatingsResponse;

    open spec fn spec_method() -> Method {
        Method::CreateProductRating
    }

    fn method() -> (m: Method) {
        Method::CreateProductRating
    }
}

/// `GetProductRating`: takes `GetProductRatingRequest`, gives `ProductRatingResponse`.
#[derive(Clone, Copy, Debug)]
pub struct GetProductRating;

impl Rpc for GetProductRating {
    type Request = crate::messages::GetProductRatingRequest;

    type Response = crate::messages::ProductRatingResponse;

    open spec fn spec_method() -> Method {
        Method::GetProductRating
    }

    fn method() -> (m: Method) {
        Method::GetProductRating
    }
}

/// `UpdateProductRating`: takes `UpdateProductRatingRequest`, gives `ProductRatingsResponse`.
#[derive(Clone, Copy, Debug)]
pub struct UpdateProductRating;

impl Rpc for UpdateProductRating {
    type Request = crate::messages::UpdateProductRatingRequest;

    type Response = crate::messages::ProductRatingsResponse;

    open spec fn spec_method() -> Method {
        Method::UpdateProductRating
    }

    fn method() -> (m: Method) {
        Method::UpdateProductRating
    }
}

/// `DeleteProductRating`: takes `DeleteProductRatingRequest`, gives `ProductRatingsResponse`.
#[derive(Clone, Copy, Debug)]
pub struct DeleteProductRating;

impl Rpc for DeleteProductRating {
    type Request = crate::messages::DeleteProductRatingRequest;

    type Response = crate::messages::ProductRatingsResponse;

    open spec fn spec_method() -> Method {
        Method::DeleteProductRating
    }

    fn method() -> (m: Method) {
        Method::DeleteProductRating
    }
}

/// `CreateSize`: takes `CreateSizeRequest`, gives `SizesResponse`.
#[derive(Clone, Copy, Debug)]
pub struct CreateSize;

impl Rpc for CreateSize {
    type Request = crate::messages::CreateSizeRequest;

    type Response = crate::messages::SizesResponse;

    open spec fn spec_method() -> Method {
        Method::CreateSize
    }

    fn method() -> (m: Method) {
        Method::CreateSize
    }
}

/// `GetSize`: takes `GetSizeRequest`, gives `SizeResponse`.
#[derive(Clone, Copy, Debug)]
pub struct GetSize;

impl Rpc for GetSize {
    type Request = crate::messages::GetSizeRequest;

    type Response = crate::messages::SizeResponse;

    open spec fn spec_method() -> Method {
        Method::GetSize
    }

    fn method() -> (m: Method) {
        Method::GetSize
    }
}

/// `UpdateSize`: takes `UpdateSizeRequest`, gives `SizesResponse`.
#[derive(Clone, Copy, Debug)]
pub struct UpdateSize;

impl Rpc for UpdateSize {
    type Request = crate::messages::UpdateSizeRequest;

    type Response = crate::messages::SizesResponse;

    open spec fn spec_method() -> Method {
        Method::UpdateSize
    }

    fn method() -> (m: Method) {
        Method::UpdateSize
    }
}

/// `DeleteSize`: takes `DeleteSizeRequest`, gives `SizesResponse`.
#[derive(Clone, Copy, Debug)]
pub struct DeleteSize;

impl Rpc for DeleteSize {
    type Request = crate::messages::DeleteSizeRequest;

    type Response = crate::messages::SizesResponse;

    open spec fn spec_method() -> Method {
        Method::DeleteSize
    }

    fn method() -> (m: Method) {
        Method::DeleteSize
    }
}

/// `CreateColor`: takes `CreateColorRequest`, gives `ColorsResponse`.
#[derive(Clone, Copy, Debug)]
pub struct CreateColor;

impl Rpc for CreateColor {
    type Request = crate::messages::CreateColorRequest;

    type Response = crate::messages::ColorsResponse;

    open spec fn spec_method() -> Method {
        Method::CreateColor
    }

    fn method() -> (m: Method) {
        Method::CreateColor
    }
}

/// `GetColor`: takes `GetColorRequest`, gives `ColorResponse`.
#[derive(Clone, Copy, Debug)]
pub struct GetColor;

impl Rpc for GetColor {
    type Request = crate::messages::GetColorRequest;

    type Response = crate::messages::ColorResponse;

    open spec fn spec_method() -> Method {
        Method::GetColor
    }

    fn method() -> (m: Method) {
        Method::GetColor
    }
}

/// `UpdateColor`: takes `UpdateColorRequest`, gives `ColorsResponse`.
#[derive(Clone, Copy, Debug)]
pub struct UpdateColor;

impl Rpc for UpdateColor {
    type Request = crate::messages::UpdateColorRequest;

    type Response = crate::messages::ColorsResponse;

    open spec fn spec_method() -> Method {
        Method::UpdateColor
    }

    fn method() -> (m: Method) {
        Method::UpdateColor
    }
}

/// `DeleteColor`: takes `DeleteColorRequest`, gives `ColorsResponse`.
#[derive(Clone, Copy, Debug)]
pub struct DeleteColor;

impl Rpc for DeleteColor {
    type Request = crate::messages::DeleteColorRequest;

    type Response = crate::messages::ColorsResponse;

    open spec fn spec_method() -> Method {
        Method::DeleteColor
    }

    fn method() -> (m: Method) {
        Method::DeleteColor
    }
}

/// `CreateProductCategoryMapping`: takes `CreateProductCategoryMappingRequest`, gives `ProductCategoryMappingsResponse`.
#[derive(Clone, Copy, Debug)]
pub struct CreateProductCategoryMapping;

impl Rpc for CreateProductCategoryMapping {
    type Request = crate::messages::CreateProductCategoryMappingRequest;

    type Response = crate::messages::ProductCategoryMappingsResponse;

    open spec fn spec_method() -> Method {
        Method::CreateProductCategoryMapping
    }

    fn method() -> (m: Method) {
        Method::CreateProductCategoryMapping
    }
}

/// `GetProductCategoryMapping`: takes `GetProductCategoryMappingRequest`, gives `ProductCategoryMappingResponse`.
#[derive(Clone, Copy, Debug)]
pub struct GetProductCategoryMapping;

impl Rpc for GetProductCategoryMapping {
    type Request = crate::messages::GetProductCategoryMappingRequest;

    type Response = crate::messages::ProductCategoryMappingResponse;

    open spec fn spec_method() -> Method {
        Method::GetProductCategoryMapping
    }

    fn method() -> (m: Method) {
        Method::GetProductCategoryMapping
    }
}

/// `DeleteProductCategoryMapping`: takes `DeleteProductCategoryMappingRequest`, gives `ProductCategoryMappingsResponse`.
#[derive(Clone, Copy, Debug)]
pub struct DeleteProductCategoryMapping;

impl Rpc for DeleteProductCategoryMapping {
    type Request = crate::messages::DeleteProductCategoryMappingRequest;

    type Response = crate::messages::ProductCategoryMappingsResponse;

    open spec fn spec_method() -> Method {
        Method::DeleteProductCategoryMapping
    }

    fn method() -> (m: Method) {
        Method::DeleteProductCategoryMapping
    }
}

/// `CreateProductAttributeMapping`: takes `CreateProductAttributeMappingRequest`, gives `ProductAttributeMappingsResponse`.
#[derive(Clone, Copy, Debug)]
pub struct CreateProductAttributeMapping;

impl Rpc for CreateProductAttributeMapping {
    type Request = crate::messages::CreateProductAttributeMappingRequest;

    type Response = crate::messages::ProductAttributeMappingsResponse;

    open spec fn spec_method() -> Method {
        Method::CreateProductAttributeMapping
    }

    fn method() -> (m: Method) {
        Method::CreateProductAttributeMapping
    }
}

/// `GetProductAttributeMapping`: takes `GetProductAttributeMappingRequest`, gives `ProductAttributeMappingResponse`.
#[derive(Clone, Copy, Debug)]
pub struct GetProductAttributeMapping;

impl Rpc for GetProductAttributeMapping {
    type Request = crate::messages::GetProductAttributeMappingRequest;

    type Response = crate::messages::ProductAttributeMappingResponse;

    open spec fn spec_method() -> Method {
        Method::GetProductAttributeMapping
    }

    fn method() -> (m: Method) {
        Method::GetProductAttributeMapping
    }
}

/// `DeleteProductAttributeMapping`: takes `DeleteProductAttributeMappingRequest`, gives `ProductAttributeMappingsResponse`.
#[derive(Clone, Copy, Debug)]
pub struct DeleteProductAttributeMapping;

impl Rpc for DeleteProductAttributeMapping {
    type Request = crate::messages::DeleteProductAttributeMappingRequest;

    type Response = crate::messages::ProductAttributeMappingsResponse;

    open spec fn spec_method() -> Method {
        Method::DeleteProductAttributeMapping
    }

    fn method() -> (m: Method) {
        Method::DeleteProductAttributeMapping
    }
}

/// `CreateUserRoleMapping`: takes `CreateUserRoleMappingRequest`, gives `UserRoleMappingsResponse`.
#[derive(Clone, Copy, Debug)]
pub struct CreateUserRoleMapping;

impl Rpc for CreateUserRoleMapping {
    type Request = crate::messages::CreateUserRoleMappingRequest;

    type Response = crate::messages::UserRoleMappingsResponse;

    open spec fn spec_method() -> Method {
        Method::CreateUserRoleMapping
    }

    fn method() -> (m: Method) {
        Method::CreateUserRoleMapping
    }
}

/// `GetUserRoleMapping`: takes `GetUserRoleMappingRequest`, gives `UserRoleMappingResponse`.
#[derive(Clone, Copy, Debug)]
pub struct GetUserRoleMapping;

impl Rpc for GetUserRoleMapping {
    type Request = crate::messages::GetUserRoleMappingRequest;

    type Response = crate::messages::UserRoleMappingResponse;

    open spec fn spec_method() -> Method {
        Method::GetUserRoleMapping
    }

    fn method() -> (m: Method) {
        Method::GetUserRoleMapping
    }
}

/// `DeleteUserRoleMapping`: takes `DeleteUserRoleMappingRequest`, gives `UserRoleMappingsResponse`.
#[derive(Clone, Copy, Debug)]
pub struct DeleteUserRoleMapping;

impl Rpc for DeleteUserRoleMapping {
    type Request = crate::messages::DeleteUserRoleMappingRequest;

    type Response = crate::messages::UserRoleMappingsResponse;

    open spec fn spec_method() -> Method {
        Method::DeleteUserRoleMapping
    }

    fn method() -> (m: Method) {
        Method::DeleteUserRoleMapping
    }
}

/// `CreateProductSizeMapping`: takes `CreateProductSizeMappingRequest`, gives `ProductSizeMappingsResponse`.
#[derive(Clone, Copy, Debug)]
pub struct CreateProductSizeMapping;

impl Rpc for CreateProductSizeMapping {
    type Request = crate::messages::CreateProductSizeMappingRequest;

    type Response = crate::messages::ProductSizeMappingsResponse;

    open spec fn spec_method() -> Method {
        Method::CreateProductSizeMapping
    }

    fn method() -> (m: Method) {
        Method::CreateProductSizeMapping
    }
}

/// `GetProductSizeMapping`: takes `GetProductSizeMappingRequest`, gives `ProductSizeMappingResponse`.
#[derive(Clone, Copy, Debug)]
pub struct GetProductSizeMapping;

impl Rpc for GetProductSizeMapping {
    type Request = crate::messages::GetProductSizeMappingRequest;

    type Response = crate::messages::ProductSizeMappingResponse;

    open spec fn spec_method() -> Method {
        Method::GetProductSizeMapping
    }

    fn method() -> (m: Method) {
        Method::GetProductSizeMapping
    }
}

/// `DeleteProductSizeMapping`: takes `DeleteProductSizeMappingRequest`, gives `ProductSizeMappingsResponse`.
#[derive(Clone, Copy, Debug)]
pub struct DeleteProductSizeMapping;

impl Rpc for DeleteProductSizeMapping {
    type Request = crate::messages::DeleteProductSizeMappingRequest;

    type Response = crate::messages::ProductSizeMappingsResponse;

    open spec fn spec_method() -> Method {
        Method::DeleteProductSizeMapping
    }

    fn method() -> (m: Method) {
        Method::DeleteProductSizeMapping
    }
}

/// `CreateProductColorMapping`: takes `CreateProductColorMappingRequest`, gives `ProductColorMappingsResponse`.
#[derive(Clone, Copy, Debug)]
pub struct CreateProductColorMapping;

impl Rpc for CreateProductColorMapping {
    type Request = crate::messages::CreateProductColorMappingRequest;

    type Response = crate::messages::ProductColorMappingsResponse;

    open spec fn spec_method() -> Method {
        Method::CreateProductColorMapping
    }

    fn method() -> (m: Method) {
        Method::CreateProductColorMapping
    }
}

/// `GetProductColorMapping`: takes `GetProductColorMappingRequest`, gives `ProductColorMappingResponse`.
#[derive(Clone, Copy, Debug)]
pub struct GetProductColorMapping;

impl Rpc for GetProductColorMapping {
    type Request = crate::messages::GetProductColorMappingRequest;

    type Response = crate::messages::ProductColorMappingResponse;

    open spec fn spec_method() -> Method {
        Method::GetProductColorMapping
    }

    fn method() -> (m: Method) {
        Method::GetProductColorMapping
    }
}

/// `DeleteProductColorMapping`: takes `DeleteProductColorMappingRequest`, gives `ProductColorMappingsResponse`.
#[derive(Clone, Copy, Debug)]
pub struct DeleteProductColorMapping;

impl Rpc for DeleteProductColorMapping {
    type Request = crate::messages::DeleteProductColorMappingRequest;

    type Response = crate::messages::ProductColorMappingsResponse;

    open spec fn spec_method() -> Method {
        Method::DeleteProductColorMapping
    }

    fn method() -> (m: Method) {
        Method::DeleteProductColorMapping
    }
}

/// `CreateProductVariant`: takes `CreateProductVariantRequest`, gives `ProductVariantsResponse`.
#[derive(Clone, Copy, Debug)]
pub struct CreateProductVariant;

impl Rpc for CreateProductVariant {
    type Request = crate::messages::CreateProductVariantRequest;

    type Response = crate::messages::ProductVariantsResponse;

    open spec fn spec_method() -> Method {
        Method::CreateProductVariant
    }

    fn method() -> (m: Method) {
        Method::CreateProductVariant
    }
}

/// `GetProductVariant`: takes `GetProductVariantRequest`, gives `ProductVariantResponse`.
#[derive(Clone, Copy, Debug)]
pub struct GetProductVariant;

impl Rpc for GetProductVariant {
    type Request = crate::messages::GetProductVariantRequest;

    type Response = crate::messages::ProductVariantResponse;

    open spec fn spec_method() -> Method {
        Method::GetProductVariant
    }

    fn method() -> (m: Method) {
        Method::GetProductVariant
    }
}

/// `UpdateProductVariant`: takes `UpdateProductVariantRequest`, gives `ProductVariantsResponse`.
#[derive(Clone, Copy, Debug)]
pub struct UpdateProductVariant;

impl Rpc for UpdateProductVariant {
    type Request = crate::messages::UpdateProductVariantRequest;

    type Response = crate::messages::ProductVariantsResponse;

    open spec fn spec_method() -> Method {
        Method::UpdateProductVariant
    }

    fn method() -> (m: Method) {
        Method::UpdateProductVariant
    }
}

/// `DeleteProductVariant`: takes `DeleteProductVariantRequest`, gives `ProductVariantsResponse`.
#[derive(Clone, Copy, Debug)]
pub struct DeleteProductVariant;

impl Rpc for DeleteProductVariant {
    type Request = crate::messages::DeleteProductVariantRequest;

    type Response = crate::messages::ProductVariantsResponse;

    open spec fn spec_method() -> Method {
        Method::DeleteProductVariant
    }

    fn method() -> (m: Method) {
        Method::DeleteProductVariant
    }
}

/// `CreateEventLog`: takes `CreateEventLogRequest`, gives `EventLogsResponse`.
#[derive(Clone, Copy, Debug)]
pub struct CreateEventLog;

impl Rpc for CreateEventLog {
    type Request = crate::messages::CreateEventLogRequest;

    type Response = crate::messages::EventLogsResponse;

    open spec fn spec_method() -> Method {
        Method::CreateEventLog
    }

    fn method() -> (m: Method) {
        Method::CreateEventLog
    }
}

/// `GetEventLog`: takes `GetEventLogRequest`, gives `EventLogResponse`.
#[derive(Clone, Copy, Debug)]
pub struct GetEventLog;

impl Rpc for GetEventLog {
    type Request = crate::messages::GetEventLogRequest;

    type Response = crate::messages::EventLogResponse;

    open spec fn spec_method() -> Method {
        Method::GetEventLog
    }

    fn method() -> (m: Method) {
        Method::GetEventLog
    }
}

/// `UpdateEventLog`: takes `UpdateEventLogRequest`, gives `EventLogsResponse`.
#[derive(Clone, Copy, Debug)]
pub struct UpdateEventLog;

impl Rpc for UpdateEventLog {
    type Request = crate::messages::UpdateEventLogRequest;

    type Response = crate::messages::EventLogsResponse;

    open spec fn spec_method() -> Method {
        Method::UpdateEventLog
    }

    fn method() -> (m: Method) {
        Method::UpdateEventLog
    }
}

/// `DeleteEventLog`: takes `DeleteEventLogRequest`, gives `EventLogsResponse`.
#[derive(Clone, Copy, Debug)]
pub struct DeleteEventLog;

impl Rpc for DeleteEventLog {
    type Request = crate::messages::DeleteEventLogRequest;

    type Response = crate::messages::EventLogsResponse;

    open spec fn spec_method() -> Method {
        Method::DeleteEventLog
    }

    fn method() -> (m: Method) {
        Method::DeleteEventLog
    }
}

/// `CreateUserActivity`: takes `CreateUserActivityRequest`, gives `UserActivitiesResponse`.
#[derive(Clone, Copy, Debug)]
pub struct CreateUserActivity;

impl Rpc for CreateUserActivity {
    type Request = crate::messages::CreateUserActivityRequest;

    type Response = crate::messages::UserActivitiesResponse;

    open spec fn spec_method() -> Method {
        Method::CreateUserActivity
    }

    fn method() -> (m: Method) {
        Method::CreateUserActivity
    }
}

/// `GetUserActivity`: takes `GetUserActivityRequest`, gives `UserActivityResponse`.
#[derive(Clone, Copy, Debug)]
pub struct GetUserActivity;

impl Rpc for GetUserActivity {
    type Request = crate::messages::GetUserActivityRequest;

    type Response = crate::messages::UserActivityResponse;

    open spec fn spec_method() -> Method {
        Method::GetUserActivity
    }

    fn method() -> (m: Method) {
        Method::GetUserActivity
    }
}

/// `UpdateUserActivity`: takes `UpdateUserActivityRequest`, gives `UserActivitiesResponse`.
#[derive(Clone, Copy, Debug)]
pub struct UpdateUserActivity;

impl Rpc for UpdateUserActivity {
    type Request = crate::messages::UpdateUserActivityRequest;

    type Response = crate::messages::UserActivitiesResponse;

    open spec fn spec_method() -> Method {
        Method::UpdateUserActivity
    }

    fn method() -> (m: Method) {
        Method::UpdateUserActivity
    }
}

/// `DeleteUserActivity`: takes `DeleteUserActivityRequest`, gives `UserActivitiesResponse`.
#[derive(Clone, Copy, Debug)]
pub struct DeleteUserActivity;

impl Rpc for DeleteUserActivity {
    type Request = crate::messages::DeleteUserActivityRequest;

    type Response = crate::messages::UserActivitiesResponse;

    open spec fn spec_method() -> Method {
        Method::DeleteUserActivity
    }

    fn method() -> (m: Method) {
        Method::DeleteUserActivity
    }
}

/// `CreateInventoryLog`: takes `CreateInventoryLogRequest`, gives `InventoryLogsResponse`.
#[derive(Clone, Copy, Debug)]
pub struct CreateInventoryLog;

impl Rpc for CreateInventoryLog {
    type Request = crate::messages::CreateInventoryLogRequest;

    type Response = crate::messages::InventoryLogsResponse;

    open spec fn spec_method() -> Method {
        Method::CreateInventoryLog
    }

    fn method() -> (m: Method) {
        Method::CreateInventoryLog
    }
}

/// `GetInventoryLog`: takes `GetInventoryLogRequest`, gives `InventoryLogResponse`.
#[derive(Clone, Copy, Debug)]
pub struct GetInventoryLog;

impl Rpc for GetInventoryLog {
    type Request = crate::messages::GetInventoryLogRequest;

    type Response = crate::messages::InventoryLogResponse;

    open spec fn spec_method() -> Method {
        Method::GetInventoryLog
    }

    fn method() -> (m: Method) {
        Method::GetInventoryLog
    }
}

/// `UpdateInventoryLog`: takes `UpdateInventoryLogRequest`, gives `InventoryLogsResponse`.
#[derive(Clone, Copy, Debug)]
pub struct UpdateInventoryLog;

impl Rpc for UpdateInventoryLog {
    type Request = crate::messages::UpdateInventoryLogRequest;

    type Response = crate::messages::InventoryLogsResponse;

    open spec fn spec_method() -> Method {
        Method::UpdateInventoryLog
    }

    fn method() -> (m: Method) {
        Method::UpdateInventoryLog
    }
}

/// `DeleteInventoryLog`: takes `DeleteInventoryLogRequest`, gives `InventoryLogsResponse`.
#[derive(Clone, Copy, Debug)]
pub struct DeleteInventoryLog;

impl Rpc for DeleteInventoryLog {
    type Request = crate::messages::DeleteInventoryLogRequest;

    type Response = crate::messages::InventoryLogsResponse;

    open spec fn spec_method() -> Method {
        Method::DeleteInventoryLog
    }

    fn method() -> (m: Method) {
        Method::DeleteInventoryLog
    }
}

/// `CreatePromotion`: takes `CreatePromotionRequest`, gives `PromotionsResponse`.
#[derive(Clone, Copy, Debug)]
pub struct CreatePromotion;

impl Rpc for CreatePromotion {
    type Request = crate::messages::CreatePromotionRequest;

    type Response = crate::messages::PromotionsResponse;

    open spec fn spec_method() -> Method {
        Method::CreatePromotion
    }

    fn method() -> (m: Method) {
        Method::CreatePromotion
    }
}

/// `GetPromotion`: takes `GetPromotionRequest`, gives `PromotionResponse`.
#[derive(Clone, Copy, Debug)]
pub struct GetPromotion;

impl Rpc for GetPromotion {
    type Request = crate::messages::GetPromotionRequest;

    type Response = crate::messages::PromotionResponse;

    open spec fn spec_method() -> Method {
        Method::GetPromotion
    }

    fn method() -> (m: Method) {
        Method::GetPromotion
    }
}

/// `UpdatePromotion`: takes `UpdatePromotionRequest`, gives `PromotionsResponse`.
#[derive(Clone, Copy, Debug)]
pub struct UpdatePromotion;

impl Rpc for UpdatePromotion {
    type Request = crate::messages::UpdatePromotionRequest;

    type Response = crate::messages::PromotionsResponse;

    open spec fn spec_method() -> Method {
        Method::UpdatePromotion
    }

    fn method() -> (m: Method) {
        Method::UpdatePromotion
    }
}

/// `DeletePromotion`: takes `DeletePromotionRequest`, gives `PromotionsResponse`.
#[derive(Clone, Copy, Debug)]
pub struct DeletePromotion;

impl Rpc for DeletePromotion {
    type Request = crate::messages::DeletePromotionRequest;

    type Response = crate::messages::PromotionsResponse;

    open spec fn spec_method() -> Method {
        Method::DeletePromotion
    }

    fn method() -> (m: Method) {
        Method::DeletePromotion
    }
}

/// `CreateShippingZone`: takes `CreateShippingZoneRequest`, gives `ShippingZonesResponse`.
#[derive(Clone, Copy, Debug)]
pub struct CreateShippingZone;

impl Rpc for CreateShippingZone {
    type Request = crate::messages::CreateShippingZoneRequest;

    type Response = crate::messages::ShippingZonesResponse;

    open spec fn spec_method() -> Method {
        Method::CreateShippingZone
    }

    fn method() -> (m: Method) {
        Method::CreateShippingZone
    }
}

/// `GetShippingZone`: takes `GetShippingZoneRequest`, gives `ShippingZoneResponse`.
#[derive(Clone, Copy, Debug)]
pub struct GetShippingZone;

impl Rpc for GetShippingZone {
    type Request = crate::messages::GetShippingZoneRequest;

    type Response = crate::messages::ShippingZoneResponse;

    open spec fn spec_method() -> Method {
        Method::GetShippingZone
    }

    fn method() -> (m: Method) {
        Method::GetShippingZone
    }
}

/// `UpdateShippingZone`: takes `UpdateShippingZoneRequest`, gives `ShippingZonesResponse`.
#[derive(Clone, Copy, Debug)]
pub struct UpdateShippingZone;

impl Rpc for UpdateShippingZone {
    type Request = crate::messages::UpdateShippingZoneRequest;

    type Response = crate::messages::ShippingZonesResponse;

    open spec fn spec_method() -> Method {
        Method::UpdateShippingZone
    }

    fn method() -> (m: Method) {
        Method::UpdateShippingZone
    }
}

/// `DeleteShippingZone`: takes `DeleteShippingZoneRequest`, gives `ShippingZonesResponse`.
#[derive(Clone, Copy, Debug)]
pub struct DeleteShippingZone;

impl Rpc for DeleteShippingZone {
    type Request = crate::messages::DeleteShippingZoneRequest;

    type Response = crate::messages::ShippingZonesResponse;

    open spec fn spec_method() -> Method {
        Method::DeleteShippingZone
    }

    fn method() -> (m: Method) {
        Method::DeleteShippingZone
    }
}

/// `CreatePaymentMethod`: takes `CreatePaymentMethodRequest`, gives `PaymentMethodsResponse`.
#[derive(Clone, Copy, Debug)]
pub struct CreatePaymentMethod;

impl Rpc for CreatePaymentMethod {
    type Request = crate::messages::CreatePaymentMethodRequest;

    type Response = crate::messages::PaymentMethodsResponse;

    open spec fn spec_method() -> Method {
        Method::CreatePaymentMethod
    }

    fn method() -> (m: Method) {
        Method::CreatePaymentMethod
    }
}

/// `GetPaymentMethod`: takes `GetPaymentMethodRequest`, gives `PaymentMethodResponse`.
#[derive(Clone, Copy, Debug)]
pub struct GetPaymentMethod;

impl Rpc for GetPaymentMethod {
    type Request = crate::messages::GetPaymentMethodRequest;

    type Response = crate::messages::PaymentMethodResponse;

    open spec fn spec_method() -> Method {
        Method::GetPaymentMethod
    }

    fn method() -> (m: Method) {
        Method::GetPaymentMethod
    }
}

/// `UpdatePaymentMethod`: takes `UpdatePaymentMethodRequest`, gives `PaymentMethodsResponse`.
#[derive(Clone, Copy, Debug)]
pub struct UpdatePaymentMethod;

impl Rpc for UpdatePaymentMethod {
    type Request = crate::messages::UpdatePaymentMethodRequest;

    type Response = crate::messages::PaymentMethodsResponse;

    open spec fn spec_method() -> Method {
        Method::UpdatePaymentMethod
    }

    fn method() -> (m: Method) {
        Method::UpdatePaymentMethod
    }
}

/// `DeletePaymentMethod`: takes `DeletePaymentMethodRequest`, gives `PaymentMethodsResponse`.
#[derive(Clone, Copy, Debug)]
pub struct DeletePaymentMethod;

impl Rpc for DeletePaymentMethod {
    type Request = crate::messages::DeletePaymentMethodRequest;

    type Response = crate::messages::PaymentMethodsResponse;

    open spec fn spec_method() -> Method {
        Method::DeletePaymentMethod
    }

    fn method() -> (m: Method) {
        Method::DeletePaymentMethod
    }
}

/// `CreateCartItem` is the method `CreateCartItem`; it takes a `CreateCartItemRequest` and gives a
/// `CartItemsResponse`.
pub proof fn lemma_create_cart_item_rpc(req: <CreateCartItem as Rpc>::Request, resp: <CreateCartItem as Rpc>::Response)
    ensures
        <CreateCartItem as Rpc>::spec_method() == Method::CreateCartItem,
        req == (crate::messages::CreateCartItemRequest { user_id: req.user_id, product_id: req.product_id, quantity: req.quantity }),
        resp == (crate::messages::CartItemsResponse { items: resp.items }),
{
}

/// `GetCartItems` is the method `GetCartItems`; it takes a `GetCartItemsRequest` and gives a
/// `CartItemsResponse`.
pub proof fn lemma_get_cart_items_rpc(req: <GetCartItems as Rpc>::Request, resp: <GetCartItems as Rpc>::Response)
    ensures
        <GetCartItems as Rpc>::spec_method() == Method::GetCartItems,
        req == (crate::messages::GetCartItemsRequest { user_id: req.user_id }),
        resp == (crate::messages::CartItemsResponse { items: resp.items }),
{
}

/// `UpdateCartItem` is the method `UpdateCartItem`; it takes a `UpdateCartItemRequest` and gives a
/// `CartItemsResponse`.
pub proof fn lemma_update_cart_item_rpc(req: <UpdateCartItem as Rpc>::Request, resp: <UpdateCartItem as Rpc>::Response)
    ensures
        <UpdateCartItem as Rpc>::spec_method() == Method::UpdateCartItem,
        req == (crate::messages::UpdateCartItemRequest { cart_id: req.cart_id, user_id: req.user_id, product_id: req.product_id, quantity: req.quantity }),
        resp == (crate::messages::CartItemsResponse { items: resp.items }),
{
}

/// `DeleteCartItem` is the method `DeleteCartItem`; it takes a `DeleteCartItemRequest` and gives a
/// `CartItemsResponse`.
pub proof fn lemma_delete_cart_item_rpc(req: <DeleteCartItem as Rpc>::Request, resp: <DeleteCartItem as Rpc>::Response)
    ensures
        <DeleteCartItem as Rpc>::spec_method() == Method::DeleteCartItem,
        req == (crate::messages::DeleteCartItemRequest { cart_id: req.cart_id }),
        resp == (crate::messages::CartItemsResponse { items: resp.items }),
{
}

/// `CreateProduct` is the method `CreateProduct`; it takes a `CreateProductRequest` and gives a
/// `ProductsResponse`.
pub proof fn lemma_create_product_rpc(req: <CreateProduct as Rpc>::Request, resp: <CreateProduct as Rpc>::Response)
    ensures
        <CreateProduct as Rpc>::spec_method() == Method::CreateProduct,
        req == (crate::messages::CreateProductRequest { name: req.name, description: req.description, price: req.price, stock_quantity: req.stock_quantity, category_id: req.category_id }),
        resp == (crate::messages::ProductsResponse { items: resp.items }),
{
}

/// `SearchProduct` is the method `SearchProduct`; it takes a `SearchProductRequest` and gives a
/// `ProductsResponse`.
pub proof fn lemma_search_product_rpc(req: <SearchProduct as Rpc>::Request, resp: <SearchProduct as Rpc>::Response)
    ensures
        <SearchProduct as Rpc>::spec_method() == Method::SearchProduct,
        req == (crate::messages::SearchProductRequest { name: req.name, description: req.description, starting_price: req.starting_price, stock_quantity: req.stock_quantity, category_id: req.category_id, ending_price: req.ending_price, product_id: req.product_id }),
        resp == (crate::messages::ProductsResponse { items: resp.items }),
{
}

/// `UpdateProduct` is the method `UpdateProduct`; it takes a `UpdateProductRequest` and gives a
/// `ProductsResponse`.
pub proof fn lemma_update_product_rpc(req: <UpdateProduct as Rpc>::Request, resp: <UpdateProduct as Rpc>::Response)
    ensures
        <UpdateProduct as Rpc>::spec_method() == Method::UpdateProduct,
        req == (crate::messages::UpdateProductRequest { name: req.name, description: req.description, price: req.price, stock_quantity: req.stock_quantity, category_id: req.category_id, product_id: req.product_id }),
        resp == (crate::messages::ProductsResponse { items: resp.items }),
{
}

/// `DeleteProduct` is the method `DeleteProduct`; it takes a `DeleteProductRequest` and gives a
/// `ProductsResponse`.
pub proof fn lemma_delete_product_rpc(req: <DeleteProduct as Rpc>::Request, resp: <DeleteProduct as Rpc>::Response)
    ensures
        <DeleteProduct as Rpc>::spec_method() == Method::DeleteProduct,
        req == (crate::messages::DeleteProductRequest { product_id: req.product_id }),
        resp == (crate::messages::ProductsResponse { items: resp.items }),
{
}

/// `CreateUser` is the method `CreateUser`; it takes a `CreateUserRequest` and gives a
/// `UsersResponse`.
pub proof fn lemma_create_user_rpc(req: <CreateUser as Rpc>::Request, resp: <CreateUser as Rpc>::Response)
    ensures
        <CreateUser as Rpc>::spec_method() == Method::CreateUser,
        req == (crate::messages::CreateUserRequest { username: req.username, password: req.password, email: req.email, full_name: req.full_name, address: req.address, phone: req.phone }),
        resp == (crate::messages::UsersResponse { items: resp.items }),
{
}

/// `GetUser` is the method `GetUser`; it takes a `GetUserRequest` and gives a
/// `UserResponse`.
pub proof fn lemma_get_user_rpc(req: <GetUser as Rpc>::Request, resp: <GetUser as Rpc>::Response)
    ensures
        <GetUser as Rpc>::spec_method() == Method::GetUser,
        req == (crate::messages::GetUserRequest { user_id: req.user_id }),
        resp == (crate::messages::UserResponse { user_id: resp.user_id, username: resp.username, email: resp.email, full_name: resp.full_name, address: resp.address, phone: resp.phone, create_date: resp.create_date }),
{
}

/// `UpdateUser` is the method `UpdateUser`; it takes a `UpdateUserRequest` and gives a
/// `UsersResponse`.
pub proof fn lemma_update_user_rpc(req: <UpdateUser as Rpc>::Request, resp: <UpdateUser as Rpc>::Response)
    ensures
        <UpdateUser as Rpc>::spec_method() == Method::UpdateUser,
        req == (crate::messages::UpdateUserRequest { user_id: req.user_id, username: req.username, password: req.password, email: req.email, full_name: req.full_name, address: req.address, phone: req.phone }),
        resp == (crate::messages::UsersResponse { items: resp.items }),
{
}

/// `DeleteUser` is the method `DeleteUser`; it takes a `DeleteUserRequest` and gives a
/// `UsersResponse`.
pub proof fn lemma_delete_user_rpc(req: <DeleteUser as Rpc>::Request, resp: <DeleteUser as Rpc>::Response)
    ensures
        <DeleteUser as Rpc>::spec_method() == Method::DeleteUser,
        req == (crate::messages::DeleteUserRequest { user_id: req.user_id }),
        resp == (crate::messages::UsersResponse { items: resp.items }),
{
}

/// `CreateCategory` is the method `CreateCategory`; it takes a `CreateCategoryRequest` and gives a
/// `CategoriesResponse`.
pub proof fn lemma_create_category_rpc(req: <CreateCategory as Rpc>::Request, resp: <CreateCategory as Rpc>::Response)
    ensures
        <CreateCategory as Rpc>::spec_method() == Method::CreateCategory,
        req == (crate::messages::CreateCategoryRequest { name: req.name }),
        resp == (crate::messages::CategoriesResponse { items: resp.items }),
{
}

/// `GetCategory` is the method `GetCategory`; it takes a `GetCategoryRequest` and gives a
/// `CategoryResponse`.
pub proof fn lemma_get_category_rpc(req: <GetCategory as Rpc>::Request, resp: <GetCategory as Rpc>::Response)
    ensures
        <GetCategory as Rpc>::spec_method() == Method::GetCategory,
        req == (crate::messages::GetCategoryRequest { category_id: req.category_id }),
        resp == (crate::messages::CategoryResponse { category_id: resp.category_id, name: resp.name }),
{
}

/// `UpdateCategory` is the method `UpdateCategory`; it takes a `UpdateCategoryRequest` and gives a
/// `CategoriesResponse`.
pub proof fn lemma_update_category_rpc(req: <UpdateCategory as Rpc>::Request, resp: <UpdateCategory as Rpc>::Response)
    ensures
        <UpdateCategory as Rpc>::spec_method() == Method::UpdateCategory,
        req == (crate::messages::UpdateCategoryRequest { category_id: req.category_id, name: req.name }),
        resp == (crate::messages::CategoriesResponse { items: resp.items }),
{
}

/// `DeleteCategory` is the method `DeleteCategory`; it takes a `DeleteCategoryRequest` and gives a
/// `CategoriesResponse`.
pub proof fn lemma_delete_category_rpc(req: <DeleteCategory as Rpc>::Request, resp: <DeleteCategory as Rpc>::Response)
    ensures
        <DeleteCategory as Rpc>::spec_method() == Method::DeleteCategory,
        req == (crate::messages::DeleteCategoryRequest { category_id: req.category_id }),
        resp == (crate::messages::CategoriesResponse { items: resp.items }),
{
}

/// `CreateOrder` is the method `CreateOrder`; it takes a `CreateOrderRequest` and gives a
/// `OrdersResponse`.
pub proof fn lemma_create_order_rpc(req: <CreateOrder as Rpc>::Request, resp: <CreateOrder as Rpc>::Response)
    ensures
        <CreateOrder as Rpc>::spec_method() == Method::CreateOrder,
        req == (crate::messages::CreateOrderRequest { user_id: req.user_id, shipping_address: req.shipping_address, total_amount: req.total_amount, status_id: req.status_id }),
        resp == (crate::messages::OrdersResponse { items: resp.items }),
{
}

/// `GetOrder` is the method `GetOrder`; it takes a `GetOrderRequest` and gives a
/// `OrderResponse`.
pub proof fn lemma_get_order_rpc(req: <GetOrder as Rpc>::Request, resp: <GetOrder as Rpc>::Response)
    ensures
        <GetOrder as Rpc>::spec_method() == Method::GetOrder,
        req == (crate::messages::GetOrderRequest { order_id: req.order_id }),
        resp == (crate::messages::OrderResponse { order_id: resp.order_id, user_id: resp.user_id, order_date: resp.order_date, shipping_address: resp.shipping_address, total_amount: resp.total_amount, status_id: resp.status_id }),
{
}

/// `UpdateOrder` is the method `UpdateOrder`; it takes a `UpdateOrderRequest` and gives a
/// `OrdersResponse`.
pub proof fn lemma_update_order_rpc(req: <UpdateOrder as Rpc>::Request, resp: <UpdateOrder as Rpc>::Response)
    ensures
        <UpdateOrder as Rpc>::spec_method() == Method::UpdateOrder,
        req == (crate::messages::UpdateOrderRequest { order_id: req.order_id, user_id: req.user_id, shipping_address: req.shipping_address, total_amount: req.total_amount, status_id: req.status_id }),
        resp == (crate::messages::OrdersResponse { items: resp.items }),
{
}

/// `DeleteOrder` is the method `DeleteOrder`; it takes a `DeleteOrderRequest` and gives a
/// `OrdersResponse`.
pub proof fn lemma_delete_order_rpc(req: <DeleteOrder as Rpc>::Request, resp: <DeleteOrder as Rpc>::Response)
    ensures
        <DeleteOrder as Rpc>::spec_method() == Method::DeleteOrder,
        req == (crate::messages::DeleteOrderRequest { order_id: req.order_id }),
        resp == (crate::messages::OrdersResponse { items: resp.items }),
{
}

/// `CreateOrderDetail` is the method `CreateOrderDetail`; it takes a `CreateOrderDetailRequest` and gives a
/// `OrderDetailsResponse`.
pub proof fn lemma_create_order_detail_rpc(req: <CreateOrderDetail as Rpc>::Request, resp: <CreateOrderDetail as Rpc>::Response)
    ensures
        <CreateOrderDetail as Rpc>::spec_method() == Method::CreateOrderDetail,
        req == (crate::messages::CreateOrderDetailRequest { order_id: req.order_id, product_id: req.product_id, quantity: req.quantity, price: req.price }),
        resp == (crate::messages::OrderDetailsResponse { items: resp.items }),
{
}

/// `GetOrderDetail` is the method `GetOrderDetail`; it takes a `GetOrderDetailRequest` and gives a
/// `OrderDetailResponse`.
pub proof fn lemma_get_order_detail_rpc(req: <GetOrderDetail as Rpc>::Request, resp: <GetOrderDetail as Rpc>::Response)
    ensures
        <GetOrderDetail as Rpc>::spec_method() == Method::GetOrderDetail,
        req == (crate::messages::GetOrderDetailRequest { order_detail_id: req.order_detail_id }),
        resp == (crate::messages::OrderDetailResponse { order_detail_id: resp.order_detail_id, order_id: resp.order_id, product_id: resp.product_id, quantity: resp.quantity, price: resp.price }),
{
}

/// `UpdateOrderDetail` is the method `UpdateOrderDetail`; it takes a `UpdateOrderDetailRequest` and gives a
/// `OrderDetailsResponse`.
pub proof fn lemma_update_order_detail_rpc(req: <UpdateOrderDetail as Rpc>::Request, resp: <UpdateOrderDetail as Rpc>::Response)
    ensures
        <UpdateOrderDetail as Rpc>::spec_method() == Method::UpdateOrderDetail,
        req == (crate::messages::UpdateOrderDetailRequest { order_detail_id: req.order_detail_id, order_id: req.order_id, product_id: req.product_id, quantity: req.quantity, price: req.price }),
        resp == (crate::messages::OrderDetailsResponse { items: resp.items }),
{
}

/// `DeleteOrderDetail` is the method `DeleteOrderDetail`; it takes a `DeleteOrderDetailRequest` and gives a
/// `OrderDetailsResponse`.
pub proof fn lemma_delete_order_detail_rpc(req: <DeleteOrderDetail as Rpc>::Request, resp: <DeleteOrderDetail as Rpc>::Response)
    ensures
        <DeleteOrderDetail as Rpc>::spec_method() == Method::DeleteOrderDetail,
        req == (crate::messages::DeleteOrderDetailRequest { order_detail_id: req.order_detail_id }),
        resp == (crate::messages::OrderDetailsResponse { items: resp.items }),
{
}

/// `CreateReview` is the method `CreateReview`; it takes a `CreateReviewRequest` and gives a
/// `ReviewsResponse`.
pub proof fn lemma_create_review_rpc(req: <CreateReview as Rpc>::Request, resp: <CreateReview as Rpc>::Response)
    ensures
        <CreateReview as Rpc>::spec_method() == Method::CreateReview,
        req == (crate::messages::CreateReviewRequest { product_id: req.product_id, user_id: req.user_id, rating: req.rating, comment: req.comment }),
        resp == (crate::messages::ReviewsResponse { items: resp.items }),
{
}

/// `GetReview` is the method `GetReview`; it takes a `GetReviewRequest` and gives a
/// `ReviewResponse`.
pub proof fn lemma_get_review_rpc(req: <GetReview as Rpc>::Request, resp: <GetReview as Rpc>::Response)
    ensures
        <GetReview as Rpc>::spec_method() == Method::GetReview,
        req == (crate::messages::GetReviewRequest { review_id: req.review_id }),
        resp == (crate::messages::ReviewResponse { review_id: resp.review_id, product_id: resp.product_id, user_id: resp.user_id, rating: resp.rating, comment: resp.comment }),
{
}

/// `UpdateReview` is the method `UpdateReview`; it takes a `UpdateReviewRequest` and gives a
/// `ReviewsResponse`.
pub proof fn lemma_update_review_rpc(req: <UpdateReview as Rpc>::Request, resp: <UpdateReview as Rpc>::Response)
    ensures
        <UpdateReview as Rpc>::spec_method() == Method::UpdateReview,
        req == (crate::messages::UpdateReviewRequest { review_id: req.review_id, product_id: req.product_id, user_id: req.user_id, rating: req.rating, comment: req.comment }),
        resp == (crate::messages::ReviewsResponse { items: resp.items }),
{
}

/// `DeleteReview` is the method `DeleteReview`; it takes a `DeleteReviewRequest` and gives a
/// `ReviewsResponse`.
pub proof fn lemma_delete_review_rpc(req: <DeleteReview as Rpc>::Request, resp: <DeleteReview as Rpc>::Response)
    ensures
        <DeleteReview as Rpc>::spec_method() == Method::DeleteReview,
        req == (crate::messages::DeleteReviewRequest { review_id: req.review_id }),
        resp == (crate::messages::ReviewsResponse { items: resp.items }),
{
}

/// `CreateProductImage` is the method `CreateProductImage`; it takes a `CreateProductImageRequest` and gives a
/// `ProductImagesResponse`.
pub proof fn lemma_create_product_image_rpc(req: <CreateProductImage as Rpc>::Request, resp: <CreateProductImage as Rpc>::Response)
    ensures
        <CreateProductImage as Rpc>::spec_method() == Method::CreateProductImage,
        req == (crate::messages::CreateProductImageRequest { product_id: req.product_id, image_url: req.image_url, alt_text: req.alt_text }),
        resp == (crate::messages::ProductImagesResponse { items: resp.items }),
{
}

/// `GetProductImage` is the method `GetProductImage`; it takes a `GetProductImageRequest` and gives a
/// `ProductImageResponse`.
pub proof fn lemma_get_product_image_rpc(req: <GetProductImage as Rpc>::Request, resp: <GetProductImage as Rpc>::Response)
    ensures
        <GetProductImage as Rpc>::spec_method() == Method::GetProductImage,
        req == (crate::messages::GetProductImageRequest { image_id: req.image_id }),
        resp == (crate::messages::ProductImageResponse { image_id: resp.image_id, product_id: resp.product_id, image_url: resp.image_url, alt_text: resp.alt_text }),
{
}

/// `UpdateProductImage` is the method `UpdateProductImage`; it takes a `UpdateProductImageRequest` and gives a
/// `ProductImagesResponse`.
pub proof fn lemma_update_product_image_rpc(req: <UpdateProductImage as Rpc>::Request, resp: <UpdateProductImage as Rpc>::Response)
    ensures
        <UpdateProductImage as Rpc>::spec_method() == Method::UpdateProductImage,
        req == (crate::messages::UpdateProductImageRequest { image_id: req.image_id, product_id: req.product_id, image_url: req.image_url, alt_text: req.alt_text }),
        resp == (crate::messages::ProductImagesResponse { items: resp.items }),
{
}

/// `DeleteProductImage` is the method `DeleteProductImage`; it takes a `DeleteProductImageRequest` and gives a
/// `ProductImagesResponse`.
pub proof fn lemma_delete_product_image_rpc(req: <DeleteProductImage as Rpc>::Request, resp: <DeleteProductImage as Rpc>::Response)
    ensures
        <DeleteProductImage as Rpc>::spec_method() == Method::DeleteProductImage,
        req == (crate::messages::DeleteProductImageRequest { image_id: req.image_id }),
        resp == (crate::messages::ProductImagesResponse { items: resp.items }),
{
}

/// `CreateSupplier` is the method `CreateSupplier`; it takes a `CreateSupplierRequest` and gives a
/// `SuppliersResponse`.
pub proof fn lemma_create_supplier_rpc(req: <CreateSupplier as Rpc>::Request, resp: <CreateSupplier as Rpc>::Response)
    ensures
        <CreateSupplier as Rpc>::spec_method() == Method::CreateSupplier,
        req == (crate::messages::CreateSupplierRequest { name: req.name, contact_info: req.contact_info, address: req.address }),
        resp == (crate::messages::SuppliersResponse { items: resp.items }),
{
}

/// `GetSupplier` is the method `GetSupplier`; it takes a `GetSupplierRequest` and gives a
/// `SupplierResponse`.
pub proof fn lemma_get_supplier_rpc(req: <GetSupplier as Rpc>::Request, resp: <GetSupplier as Rpc>::Response)
    ensures
        <GetSupplier as Rpc>::spec_method() == Method::GetSupplier,
        req == (crate::messages::GetSupplierRequest { supplier_id: req.supplier_id }),
        resp == (crate::messages::SupplierResponse { supplier_id: resp.supplier_id, name: resp.name, contact_info: resp.contact_info, address: resp.address }),
{
}

/// `UpdateSupplier` is the method `UpdateSupplier`; it takes a `UpdateSupplierRequest` and gives a
/// `SuppliersResponse`.
pub proof fn lemma_update_supplier_rpc(req: <UpdateSupplier as Rpc>::Request, resp: <UpdateSupplier as Rpc>::Response)
    ensures
        <UpdateSupplier as Rpc>::spec_method() == Method::UpdateSupplier,
        req == (crate::messages::UpdateSupplierRequest { supplier_id: req.supplier_id, name: req.name, contact_info: req.contact_info, address: req.address }),
        resp == (crate::messages::SuppliersResponse { items: resp.items }),
{
}

/// `DeleteSupplier` is the method `DeleteSupplier`; it takes a `DeleteSupplierRequest` and gives a
/// `SuppliersResponse`.
pub proof fn lemma_delete_supplier_rpc(req: <DeleteSupplier as Rpc>::Request, resp: <DeleteSupplier as Rpc>::Response)
    ensures
        <DeleteSupplier as Rpc>::spec_method() == Method::DeleteSupplier,
        req == (crate::messages::DeleteSupplierRequest { supplier_id: req.supplier_id }),
        resp == (crate::messages::SuppliersResponse { items: resp.items }),
{
}

/// `CreateInventoryItem` is the method `CreateInventoryItem`; it takes a `CreateInventoryItemRequest` and gives a
/// `InventoryItemsResponse`.
pub proof fn lemma_create_inventory_item_rpc(req: <CreateInventoryItem as Rpc>::Request, resp: <CreateInventoryItem as Rpc>::Response)
    ensures
        <CreateInventoryItem as Rpc>::spec_method() == Method::CreateInventoryItem,
        req == (crate::messages::CreateInventoryItemRequest { product_id: req.product_id, quantity_available: req.quantity_available, reorder_level: req.reorder_level, supplier_id: req.supplier_id }),
        resp == (crate::messages::InventoryItemsResponse { items: resp.items }),
{
}

/// `GetInventoryItem` is the method `GetInventoryItem`; it takes a `GetInventoryItemRequest` and gives a
/// `InventoryItemResponse`.
pub proof fn lemma_get_inventory_item_rpc(req: <GetInventoryItem as Rpc>::Request, resp: <GetInventoryItem as Rpc>::Response)
    ensures
        <GetInventoryItem as Rpc>::spec_method() == Method::GetInventoryItem,
        req == (crate::messages::GetInventoryItemRequest { inventory_id: req.inventory_id }),
        resp == (crate::messages::InventoryItemResponse { inventory_id: resp.inventory_id, product_id: resp.product_id, quantity_available: resp.quantity_available, reorder_level: resp.reorder_level, supplier_id: resp.supplier_id }),
{
}

/// `UpdateInventoryItem` is the method `UpdateInventoryItem`; it takes a `UpdateInventoryItemRequest` and gives a
/// `InventoryItemsResponse`.
pub proof fn lemma_update_inventory_item_rpc(req: <UpdateInventoryItem as Rpc>::Request, resp: <UpdateInventoryItem as Rpc>::Response)
    ensures
        <UpdateInventoryItem as Rpc>::spec_method() == Method::UpdateInventoryItem,
        req == (crate::messages::UpdateInventoryItemRequest { inventory_id: req.inventory_id, product_id: req.product_id, quantity_available: req.quantity_available, reorder_level: req.reorder_level, supplier_id: req.supplier_id }),
        resp == (crate::messages::InventoryItemsResponse { items: resp.items }),
{
}

/// `DeleteInventoryItem` is the method `DeleteInventoryItem`; it takes a `DeleteInventoryItemRequest` and gives a
/// `InventoryItemsResponse`.
pub proof fn lemma_delete_inventory_item_rpc(req: <DeleteInventoryItem as Rpc>::Request, resp: <DeleteInventoryItem as Rpc>::Response)
    ensures
        <DeleteInventoryItem as Rpc>::spec_method() == Method::DeleteInventoryItem,
        req == (crate::messages::DeleteInventoryItemRequest { inventory_id: req.inventory_id }),
        resp == (crate::messages::InventoryItemsResponse { items: resp.items }),
{
}

/// `CreateWishlistItem` is the method `CreateWishlistItem`; it takes a `CreateWishlistItemRequest` and gives a
/// `WishlistItemsResponse`.
pub proof fn lemma_create_wishlist_item_rpc(req: <CreateWishlistItem as Rpc>::Request, resp: <CreateWishlistItem as Rpc>::Response)
    ensures
        <CreateWishlistItem as Rpc>::spec_method() == Method::CreateWishlistItem,
        req == (crate::messages::CreateWishlistItemRequest { user_id: req.user_id, product_id: req.product_id, date_added: req.date_added }),
        resp == (crate::messages::WishlistItemsResponse { items: resp.items }),
{
}

/// `GetWishlistItem` is the method `GetWishlistItem`; it takes a `GetWishlistItemRequest` and gives a
/// `WishlistItemResponse`.
pub proof fn lemma_get_wishlist_item_rpc(req: <GetWishlistItem as Rpc>::Request, resp: <GetWishlistItem as Rpc>::Response)
    ensures
        <GetWishlistItem as Rpc>::spec_method() == Method::GetWishlistItem,
        req == (crate::messages::GetWishlistItemRequest { wishlist_id: req.wishlist_id }),
        resp == (crate::messages::WishlistItemResponse { wishlist_id: resp.wishlist_id, user_id: resp.user_id, product_id: resp.product_id, date_added: resp.date_added }),
{
}

/// `UpdateWishlistItem` is the method `UpdateWishlistItem`; it takes a `UpdateWishlistItemRequest` and gives a
/// `WishlistItemsResponse`.
pub proof fn lemma_update_wishlist_item_rpc(req: <UpdateWishlistItem as Rpc>::Request, resp: <UpdateWishlistItem as Rpc>::Response)
    ensures
        <UpdateWishlistItem as Rpc>::spec_method() == Method::UpdateWishlistItem,
        req == (crate::messages::UpdateWishlistItemRequest { wishlist_id: req.wishlist_id, user_id: req.user_id, product_id: req.product_id, date_added: req.date_added }),
        resp == (crate::messages::WishlistItemsResponse { items: resp.items }),
{
}

/// `DeleteWishlistItem` is the method `DeleteWishlistItem`; it takes a `DeleteWishlistItemRequest` and gives a
/// `WishlistItemsResponse`.
pub proof fn lemma_delete_wishlist_item_rpc(req: <DeleteWishlistItem as Rpc>::Request, resp: <DeleteWishlistItem as Rpc>::Response)
    ensures
        <DeleteWishlistItem as Rpc>::spec_method() == Method::DeleteWishlistItem,
        req == (crate::messages::DeleteWishlistItemRequest { wishlist_id: req.wishlist_id }),
        resp == (crate::messages::WishlistItemsResponse { items: resp.items }),
{
}

/// `CreateProductAttribute` is the method `CreateProductAttribute`; it takes a `CreateProductAttributeRequest` and gives a
/// `ProductAttributesResponse`.
pub proof fn lemma_create_product_attribute_rpc(req: <CreateProductAttribute as Rpc>::Request, resp: <CreateProductAttribute as Rpc>::Response)
    ensures
        <CreateProductAttribute as Rpc>::spec_method() == Method::CreateProductAttribute,
        req == (crate::messages::CreateProductAttributeRequest { product_id: req.product_id, attribute_name: req.attribute_name, attribute_value: req.attribute_value }),
        resp == (crate::messages::ProductAttributesResponse { items: resp.items }),
{
}

/// `GetProductAttribute` is the method `GetProductAttribute`; it takes a `GetProductAttributeRequest` and gives a
/// `ProductAttributeResponse`.
pub proof fn lemma_get_product_attribute_rpc(req: <GetProductAttribute as Rpc>::Request, resp: <GetProductAttribute as Rpc>::Response)
    ensures
        <GetProductAttribute as Rpc>::spec_method() == Method::GetProductAttribute,
        req == (crate::messages::GetProductAttributeRequest { attribute_id: req.attribute_id }),
        resp == (crate::messages::ProductAttributeResponse { attribute_id: resp.attribute_id, product_id: resp.product_id, attribute_name: resp.attribute_name, attribute_value: resp.attribute_value }),
{
}

/// `UpdateProductAttribute` is the method `UpdateProductAttribute`; it takes a `UpdateProductAttributeRequest` and gives a
/// `ProductAttributesResponse`.
pub proof fn lemma_update_product_attribute_rpc(req: <UpdateProductAttribute as Rpc>::Request, resp: <UpdateProductAttribute as Rpc>::Response)
    ensures
        <UpdateProductAttribute as Rpc>::spec_method() == Method::UpdateProductAttribute,
        req == (crate::messages::UpdateProductAttributeRequest { attribute_id: req.attribute_id, product_id: req.product_id, attribute_name: req.attribute_name, attribute_value: req.attribute_value }),
        resp == (crate::messages::ProductAttributesResponse { items: resp.items }),
{
}

/// `DeleteProductAttribute` is the method `DeleteProductAttribute`; it takes a `DeleteProductAttributeRequest` and gives a
/// `ProductAttributesResponse`.
pub proof fn lemma_delete_product_attribute_rpc(req: <DeleteProductAttribute as Rpc>::Request, resp: <DeleteProductAttribute as Rpc>::Response)
    ensures
        <DeleteProductAttribute as Rpc>::spec_method() == Method::DeleteProductAttribute,
        req == (crate::messages::DeleteProductAttributeRequest { attribute_id: req.attribute_id }),
        resp == (crate::messages::ProductAttributesResponse { items: resp.items }),
{
}

/// `CreateDiscount` is the method `CreateDiscount`; it takes a `CreateDiscountRequest` and gives a
/// `DiscountsResponse`.
pub proof fn lemma_create_discount_rpc(req: <CreateDiscount as Rpc>::Request, resp: <CreateDiscount as Rpc>::Response)
    ensures
        <CreateDiscount as Rpc>::spec_method() == Method::CreateDiscount,
        req == (crate::messages::CreateDiscountRequest { product_id: req.product_id, discount_percentage: req.discount_percentage, start_date: req.start_date, end_date: req.end_date }),
        resp == (crate::messages::DiscountsResponse { items: resp.items }),
{
}

/// `GetDiscount` is the method `GetDiscount`; it takes a `GetDiscountRequest` and gives a
/// `DiscountResponse`.
pub proof fn lemma_get_discount_rpc(req: <GetDiscount as Rpc>::Request, resp: <GetDiscount as Rpc>::Response)
    ensures
        <GetDiscount as Rpc>::spec_method() == Method::GetDiscount,
        req == (crate::messages::GetDiscountRequest { discount_id: req.discount_id }),
        resp == (crate::messages::DiscountResponse { discount_id: resp.discount_id, product_id: resp.product_id, discount_percentage: resp.discount_percentage, start_date: resp.start_date, end_date: resp.end_date }),
{
}

/// `UpdateDiscount` is the method `UpdateDiscount`; it takes a `UpdateDiscountRequest` and gives a
/// `DiscountsResponse`.
pub proof fn lemma_update_discount_rpc(req: <UpdateDiscount as Rpc>::Request, resp: <UpdateDiscount as Rpc>::Response)
    ensures
        <UpdateDiscount as Rpc>::spec_method() == Method::UpdateDiscount,
        req == (crate::messages::UpdateDiscountRequest { discount_id: req.discount_id, product_id: req.product_id, discount_percentage: req.discount_percentage, start_date: req.start_date, end_date: req.end_date }),
        resp == (crate::messages::DiscountsResponse { items: resp.items }),
{
}

/// `DeleteDiscount` is the method `DeleteDiscount`; it takes a `DeleteDiscountRequest` and gives a
/// `DiscountsResponse`.
pub proof fn lemma_delete_discount_rpc(req: <DeleteDiscount as Rpc>::Request, resp: <DeleteDiscount as Rpc>::Response)
    ensures
        <DeleteDiscount as Rpc>::spec_method() == Method::DeleteDiscount,
        req == (crate::messages::DeleteDiscountRequest { discount_id: req.discount_id }),
        resp == (crate::messages::DiscountsResponse { items: resp.items }),
{
}

/// `CreateShippingMethod` is the method `CreateShippingMethod`; it takes a `CreateShippingMethodRequest` and gives a
/// `ShippingMethodsResponse`.
pub proof fn lemma_create_shipping_method_rpc(req: <CreateShippingMethod as Rpc>::Request, resp: <CreateShippingMethod as Rpc>::Response)
    ensures
        <CreateShippingMethod as Rpc>::spec_method() == Method::CreateShippingMethod,
        req == (crate::messages::CreateShippingMethodRequest { method_name: req.method_name, cost: req.cost, estimated_delivery_time: req.estimated_delivery_time }),
        resp == (crate::messages::ShippingMethodsResponse { items: resp.items }),
{
}

/// `GetShippingMethod` is the method `GetShippingMethod`; it takes a `GetShippingMethodRequest` and gives a
/// `ShippingMethodResponse`.
pub proof fn lemma_get_shipping_method_rpc(req: <GetShippingMethod as Rpc>::Request, resp: <GetShippingMethod as Rpc>::Response)
    ensures
        <GetShippingMethod as Rpc>::spec_method() == Method::GetShippingMethod,
        req == (crate::messages::GetShippingMethodRequest { method_id: req.method_id }),
        resp == (crate::messages::ShippingMethodResponse { method_id: resp.method_id, method_name: resp.method_name, cost: resp.cost, estimated_delivery_time: resp.estimated_delivery_time }),
{
}

/// `UpdateShippingMethod` is the method `UpdateShippingMethod`; it takes a `UpdateShippingMethodRequest` and gives a
/// `ShippingMethodsResponse`.
pub proof fn lemma_update_shipping_method_rpc(req: <UpdateShippingMethod as Rpc>::Request, resp: <UpdateShippingMethod as Rpc>::Response)
    ensures
        <UpdateShippingMethod as Rpc>::spec_method() == Method::UpdateShippingMethod,
        req == (crate::messages::UpdateShippingMethodRequest { method_id: req.method_id, method_name: req.method_name, cost: req.cost, estimated_delivery_time: req.estimated_delivery_time }),
        resp == (crate::messages::ShippingMethodsResponse { items: resp.items }),
{
}

/// `DeleteShippingMethod` is the method `DeleteShippingMethod`; it takes a `DeleteShippingMethodRequest` and gives a
/// `ShippingMethodsResponse`.
pub proof fn lemma_delete_shipping_method_rpc(req: <DeleteShippingMethod as Rpc>::Request, resp: <DeleteShippingMethod as Rpc>::Response)
    ensures
        <DeleteShippingMethod as Rpc>::spec_method() == Method::DeleteShippingMethod,
        req == (crate::messages::DeleteShippingMethodRequest { method_id: req.method_id }),
        resp == (crate::messages::ShippingMethodsResponse { items: resp.items }),
{
}

/// `CreateUserRole` is the method `CreateUserRole`; it takes a `CreateUserRoleRequest` and gives a
/// `UserRolesResponse`.
pub proof fn lemma_create_user_role_rpc(req: <CreateUserRole as Rpc>::Request, resp: <CreateUserRole as Rpc>::Response)
    ensures
        <CreateUserRole as Rpc>::spec_method() == Method::CreateUserRole,
        req == (crate::messages::CreateUserRoleRequest { role_name: req.role_name }),
        resp == (crate::messages::UserRolesResponse { items: resp.items }),
{
}

/// `GetUserRole` is the method `GetUserRole`; it takes a `GetUserRoleRequest` and gives a
/// `UserRoleResponse`.
pub proof fn lemma_get_user_role_rpc(req: <GetUserRole as Rpc>::Request, resp: <GetUserRole as Rpc>::Response)
    ensures
        <GetUserRole as Rpc>::spec_method() == Method::GetUserRole,
        req == (crate::messages::GetUserRoleRequest { role_id: req.role_id }),
        resp == (crate::messages::UserRoleResponse { role_id: resp.role_id, role_name: resp.role_name }),
{
}

/// `UpdateUserRole` is the method `UpdateUserRole`; it takes a `UpdateUserRoleRequest` and gives a
/// `UserRolesResponse`.
pub proof fn lemma_update_user_role_rpc(req: <UpdateUserRole as Rpc>::Request, resp: <UpdateUserRole as Rpc>::Response)
    ensures
        <UpdateUserRole as Rpc>::spec_method() == Method::UpdateUserRole,
        req == (crate::messages::UpdateUserRoleRequest { role_id: req.role_id, role_name: req.role_name }),
        resp == (crate::messages::UserRolesResponse { items: resp.items }),
{
}

/// `DeleteUserRole` is the method `DeleteUserRole`; it takes a `DeleteUserRoleRequest` and gives a
/// `UserRolesResponse`.
pub proof fn lemma_delete_user_role_rpc(req: <DeleteUserRole as Rpc>::Request, resp: <DeleteUserRole as Rpc>::Response)
    ensures
        <DeleteUserRole as Rpc>::spec_method() == Method::DeleteUserRole,
        req == (crate::messages::DeleteUserRoleRequest { role_id: req.role_id }),
        resp == (crate::messages::UserRolesResponse { items: resp.items }),
{
}

/// `CreateUserRolesMapping` is the method `CreateUserRolesMapping`; it takes a `CreateUserRolesMappingRequest` and gives a
/// `UserRolesMappingsResponse`.
pub proof fn lemma_create_user_roles_mapping_rpc(req: <CreateUserRolesMapping as Rpc>::Request, resp: <CreateUserRolesMapping as Rpc>::Response)
    ensures
        <CreateUserRolesMapping as Rpc>::spec_method() == Method::CreateUserRolesMapping,
        req == (crate::messages::CreateUserRolesMappingRequest { user_id: req.user_id, role_id: req.role_id }),
        resp == (crate::messages::UserRolesMappingsResponse { items: resp.items }),
{
}

/// `GetUserRolesMapping` is the method `GetUserRolesMapping`; it takes a `GetUserRolesMappingRequest` and gives a
/// `UserRolesMappingResponse`.
pub proof fn lemma_get_user_roles_mapping_rpc(req: <GetUserRolesMapping as Rpc>::Request, resp: <GetUserRolesMapping as Rpc>::Response)
    ensures
        <GetUserRolesMapping as Rpc>::spec_method() == Method::GetUserRolesMapping,
        req == (crate::messages::GetUserRolesMappingRequest { id: req.id }),
        resp == (crate::messages::UserRolesMappingResponse { id: resp.id, user_id: resp.user_id, role_id: resp.role_id }),
{
}

/// `UpdateUserRolesMapping` is the method `UpdateUserRolesMapping`; it takes a `UpdateUserRolesMappingRequest` and gives a
/// `UserRolesMappingsResponse`.
pub proof fn lemma_update_user_roles_mapping_rpc(req: <UpdateUserRolesMapping as Rpc>::Request, resp: <UpdateUserRolesMapping as Rpc>::Response)
    ensures
        <UpdateUserRolesMapping as Rpc>::spec_method() == Method::UpdateUserRolesMapping,
        req == (crate::messages::UpdateUserRolesMappingRequest { id: req.id, user_id: req.user_id, role_id: req.role_id }),
        resp == (crate::messages::UserRolesMappingsResponse { items: resp.items }),
{
}

/// `DeleteUserRolesMapping` is the method `DeleteUserRolesMapping`; it takes a `DeleteUserRolesMappingRequest` and gives a
/// `UserRolesMappingsResponse`.
pub proof fn lemma_delete_user_roles_mapping_rpc(req: <DeleteUserRolesMapping as Rpc>::Request, resp: <DeleteUserRolesMapping as Rpc>::Response)
    ensures
        <DeleteUserRolesMapping as Rpc>::spec_method() == Method::DeleteUserRolesMapping,
        req == (crate::messages::DeleteUserRolesMappingRequest { id: req.id }),
        resp == (crate::messages::UserRolesMappingsResponse { items: resp.items }),
{
}

/// `CreateTransaction` is the method `CreateTransaction`; it takes a `CreateTransactionRequest` and gives a
/// `TransactionsResponse`.
pub proof fn lemma_create_transaction_rpc(req: <CreateTransaction as Rpc>::Request, resp: <CreateTransaction as Rpc>::Response)
    ensures
        <CreateTransaction as Rpc>::spec_method() == Method::CreateTransaction,
        req == (crate::messages::CreateTransactionRequest { user_id: req.user_id, amount: req.amount }),
        resp == (crate::messages::TransactionsResponse { items: resp.items }),
{
}

/// `GetTransaction` is the method `GetTransaction`; it takes a `GetTransactionRequest` and gives a
/// `TransactionResponse`.
pub proof fn lemma_get_transaction_rpc(req: <GetTransaction as Rpc>::Request, resp: <GetTransaction as Rpc>::Response)
    ensures
        <GetTransaction as Rpc>::spec_method() == Method::GetTransaction,
        req == (crate::messages::GetTransactionRequest { transaction_id: req.transaction_id }),
        resp == (crate::messages::TransactionResponse { transaction_id: resp.transaction_id, user_id: resp.user_id, amount: resp.amount, transaction_date: resp.transaction_date }),
{
}

/// `UpdateTransaction` is the method `UpdateTransaction`; it takes a `UpdateTransactionRequest` and gives a
/// `TransactionsResponse`.
pub proof fn lemma_update_transaction_rpc(req: <UpdateTransaction as Rpc>::Request, resp: <UpdateTransaction as Rpc>::Response)
    ensures
        <UpdateTransaction as Rpc>::spec_method() == Method::UpdateTransaction,
        req == (crate::messages::UpdateTransactionRequest { transaction_id: req.transaction_id, user_id: req.user_id, amount: req.amount }),
        resp == (crate::messages::TransactionsResponse { items: resp.items }),
{
}

/// `DeleteTransaction` is the method `DeleteTransaction`; it takes a `DeleteTransactionRequest` and gives a
/// `TransactionsResponse`.
pub proof fn lemma_delete_transaction_rpc(req: <DeleteTransaction as Rpc>::Request, resp: <DeleteTransaction as Rpc>::Response)
    ensures
        <DeleteTransaction as Rpc>::spec_method() == Method::DeleteTransaction,
        req == (crate::messages::DeleteTransactionRequest { transaction_id: req.transaction_id }),
        resp == (crate::messages::TransactionsResponse { items: resp.items }),
{
}

/// `CreateNewsletterSubscriber` is the method `CreateNewsletterSubscriber`; it takes a `CreateNewsletterSubscriberRequest` and gives a
/// `NewsletterSubscribersResponse`.
pub proof fn lemma_create_newsletter_subscriber_rpc(req: <CreateNewsletterSubscriber as Rpc>::Request, resp: <CreateNewsletterSubscriber as Rpc>::Response)
    ensures
        <CreateNewsletterSubscriber as Rpc>::spec_method() == Method::CreateNewsletterSubscriber,
        req == (crate::messages::CreateNewsletterSubscriberRequest { email: req.email }),
        resp == (crate::messages::NewsletterSubscribersResponse { items: resp.items }),
{
}

/// `GetNewsletterSubscriber` is the method `GetNewsletterSubscriber`; it takes a `GetNewsletterSubscriberRequest` and gives a
/// `NewsletterSubscriberResponse`.
pub proof fn lemma_get_newsletter_subscriber_rpc(req: <GetNewsletterSubscriber as Rpc>::Request, resp: <GetNewsletterSubscriber as Rpc>::Response)
    ensures
        <GetNewsletterSubscriber as Rpc>::spec_method() == Method::GetNewsletterSubscriber,
        req == (crate::messages::GetNewsletterSubscriberRequest { subscriber_id: req.subscriber_id }),
        resp == (crate::messages::NewsletterSubscriberResponse { subscriber_id: resp.subscriber_id, email: resp.email, subscription_date: resp.subscription_date }),
{
}

/// `UpdateNewsletterSubscriber` is the method `UpdateNewsletterSubscriber`; it takes a `UpdateNewsletterSubscriberRequest` and gives a
/// `NewsletterSubscribersResponse`.
pub proof fn lemma_update_newsletter_subscriber_rpc(req: <UpdateNewsletterSubscriber as Rpc>::Request, resp: <UpdateNewsletterSubscriber as Rpc>::Response)
    ensures
        <UpdateNewsletterSubscriber as Rpc>::spec_method() == Method::UpdateNewsletterSubscriber,
        req == (crate::messages::UpdateNewsletterSubscriberRequest { subscriber_id: req.subscriber_id, email: req.email }),
        resp == (crate::messages::NewsletterSubscribersResponse { items: resp.items }),
{
}

/// `DeleteNewsletterSubscriber` is the method `DeleteNewsletterSubscriber`; it takes a `DeleteNewsletterSubscriberRequest` and gives a
/// `NewsletterSubscribersResponse`.
pub proof fn lemma_delete_newsletter_subscriber_rpc(req: <DeleteNewsletterSubscriber as Rpc>::Request, resp: <DeleteNewsletterSubscriber as Rpc>::Response)
    ensures
        <DeleteNewsletterSubscriber as Rpc>::spec_method() == Method::DeleteNewsletterSubscriber,
        req == (crate::messages::DeleteNewsletterSubscriberRequest { subscriber_id: req.subscriber_id }),
        resp == (crate::messages::NewsletterSubscribersResponse { items: resp.items }),
{
}

/// `CreateProductRating` is the method `CreateProductRating`; it takes a `CreateProductRatingRequest` and gives a
/// `ProductRatingsResponse`.
pub proof fn lemma_create_product_rating_rpc(req: <CreateProductRating as Rpc>::Request, resp: <CreateProductRating as Rpc>::Response)
    ensures
        <CreateProductRating as Rpc>::spec_method() == Method::CreateProductRating,
        req == (crate::messages::CreateProductRatingRequest { product_id: req.product_id, user_id: req.user_id, rating: req.rating }),
        resp == (crate::messages::ProductRatingsResponse { items: resp.items }),
{
}

/// `GetProductRating` is the method `GetProductRating`; it takes a `GetProductRatingRequest` and gives a
/// `ProductRatingResponse`.
pub proof fn lemma_get_product_rating_rpc(req: <GetProductRating as Rpc>::Request, resp: <GetProductRating as Rpc>::Response)
    ensures
        <GetProductRating as Rpc>::spec_method() == Method::GetProductRating,
        req == (crate::messages::GetProductRatingRequest { rating_id: req.rating_id }),
        resp == (crate::messages::ProductRatingResponse { rating_id: resp.rating_id, product_id: resp.product_id, user_id: resp.user_id, rating: resp.rating }),
{
}

/// `UpdateProductRating` is the method `UpdateProductRating`; it takes a `UpdateProductRatingRequest` and gives a
/// `ProductRatingsResponse`.
pub proof fn lemma_update_product_rating_rpc(req: <UpdateProductRating as Rpc>::Request, resp: <UpdateProductRating as Rpc>::Response)
    ensures
        <UpdateProductRating as Rpc>::spec_method() == Method::UpdateProductRating,
        req == (crate::messages::UpdateProductRatingRequest { rating_id: req.rating_id, product_id: req.product_id, user_id: req.user_id, rating: req.rating }),
        resp == (crate::messages::ProductRatingsResponse { items: resp.items }),
{
}

/// `DeleteProductRating` is the method `DeleteProductRating`; it takes a `DeleteProductRatingRequest` and gives a
/// `ProductRatingsResponse`.
pub proof fn lemma_delete_product_rating_rpc(req: <DeleteProductRating as Rpc>::Request, resp: <DeleteProductRating as Rpc>::Response)
    ensures
        <DeleteProductRating as Rpc>::spec_method() == Method::DeleteProductRating,
        req == (crate::messages::DeleteProductRatingRequest { rating_id: req.rating_id }),
        resp == (crate::messages::ProductRatingsResponse { items: resp.items }),
{
}

/// `CreateSize` is the method `CreateSize`; it takes a `CreateSizeRequest` and gives a
/// `SizesResponse`.
pub proof fn lemma_create_size_rpc(req: <CreateSize as Rpc>::Request, resp: <CreateSize as Rpc>::Response)
    ensures
        <CreateSize as Rpc>::spec_method() == Method::CreateSize,
        req == (crate::messages::CreateSizeRequest { size_name: req.size_name }),
        resp == (crate::messages::SizesResponse { items: resp.items }),
{
}

/// `GetSize` is the method `GetSize`; it takes a `GetSizeRequest` and gives a
/// `SizeResponse`.
pub proof fn lemma_get_size_rpc(req: <GetSize as Rpc>::Request, resp: <GetSize as Rpc>::Response)
    ensures
        <GetSize as Rpc>::spec_method() == Method::GetSize,
        req == (crate::messages::GetSizeRequest { size_id: req.size_id }),
        resp == (crate::messages::SizeResponse { size_id: resp.size_id, size_name: resp.size_name }),
{
}

/// `UpdateSize` is the method `UpdateSize`; it takes a `UpdateSizeRequest` and gives a
/// `SizesResponse`.
pub proof fn lemma_update_size_rpc(req: <UpdateSize as Rpc>::Request, resp: <UpdateSize as Rpc>::Response)
    ensures
        <UpdateSize as Rpc>::spec_method() == Method::UpdateSize,
        req == (crate::messages::UpdateSizeRequest { size_id: req.size_id, size_name: req.size_name }),
        resp == (crate::messages::SizesResponse { items: resp.items }),
{
}

/// `DeleteSize` is the method `DeleteSize`; it takes a `DeleteSizeRequest` and gives a
/// `SizesResponse`.
pub proof fn lemma_delete_size_rpc(req: <DeleteSize as Rpc>::Request, resp: <DeleteSize as Rpc>::Response)
    ensures
        <DeleteSize as Rpc>::spec_method() == Method::DeleteSize,
        req == (crate::messages::DeleteSizeRequest { size_id: req.size_id }),
        resp == (crate::messages::SizesResponse { items: resp.items }),
{
}

/// `CreateColor` is the method `CreateColor`; it takes a `CreateColorRequest` and gives a
/// `ColorsResponse`.
pub proof fn lemma_create_color_rpc(req: <CreateColor as Rpc>::Request, resp: <CreateColor as Rpc>::Response)
    ensures
        <CreateColor as Rpc>::spec_method() == Method::CreateColor,
        req == (crate::messages::CreateColorRequest { color_name: req.color_name }),
        resp == (crate::messages::ColorsResponse { items: resp.items }),
{
}

/// `GetColor` is the method `GetColor`; it takes a `GetColorRequest` and gives a
/// `ColorResponse`.
pub proof fn lemma_get_color_rpc(req: <GetColor as Rpc>::Request, resp: <GetColor as Rpc>::Response)
    ensures
        <GetColor as Rpc>::spec_method() == Method::GetColor,
        req == (crate::messages::GetColorRequest { color_id: req.color_id }),
        resp == (crate::messages::ColorResponse { color_id: resp.color_id, color_name: resp.color_name }),
{
}

/// `UpdateColor` is the method `UpdateColor`; it takes a `UpdateColorRequest` and gives a
/// `ColorsResponse`.
pub proof fn lemma_update_color_rpc(req: <UpdateColor as Rpc>::Request, resp: <UpdateColor as Rpc>::Response)
    ensures
        <UpdateColor as Rpc>::spec_method() == Method::UpdateColor,
        req == (crate::messages::UpdateColorRequest { color_id: req.color_id, color_name: req.color_name }),
        resp == (crate::messages::ColorsResponse { items: resp.items }),
{
}

/// `DeleteColor` is the method `DeleteColor`; it takes a `DeleteColorRequest` and gives a
/// `ColorsResponse`.
pub proof fn lemma_delete_color_rpc(req: <DeleteColor as Rpc>::Request, resp: <DeleteColor as Rpc>::Response)
    ensures
        <DeleteColor as Rpc>::spec_method() == Method::DeleteColor,
        req == (crate::messages::DeleteColorRequest { color_id: req.color_id }),
        resp == (crate::messages::ColorsResponse { items: resp.items }),
{
}

/// `CreateProductCategoryMapping` is the method `CreateProductCategoryMapping`; it takes a `CreateProductCategoryMappingRequest` and gives a
/// `ProductCategoryMappingsResponse`.
pub proof fn lemma_create_product_category_mapping_rpc(req: <CreateProductCategoryMapping as Rpc>::Request, resp: <CreateProductCategoryMapping as Rpc>::Response)
    ensures
        <CreateProductCategoryMapping as Rpc>::spec_method() == Method::CreateProductCategoryMapping,
        req == (crate::messages::CreateProductCategoryMappingRequest { product_id: req.product_id, category_id: req.category_id }),
        resp == (crate::messages::ProductCategoryMappingsResponse { items: resp.items }),
{
}

/// `GetProductCategoryMapping` is the method `GetProductCategoryMapping`; it takes a `GetProductCategoryMappingRequest` and gives a
/// `ProductCategoryMappingResponse`.
pub proof fn lemma_get_product_category_mapping_rpc(req: <GetProductCategoryMapping as Rpc>::Request, resp: <GetProductCategoryMapping as Rpc>::Response)
    ensures
        <GetProductCategoryMapping as Rpc>::spec_method() == Method::GetProductCategoryMapping,
        req == (crate::messages::GetProductCategoryMappingRequest { product_id: req.product_id, category_id: req.category_id }),
        resp == (crate::messages::ProductCategoryMappingResponse { product_id: resp.product_id, category_id: resp.category_id }),
{
}

/// `DeleteProductCategoryMapping` is the method `DeleteProductCategoryMapping`; it takes a `DeleteProductCategoryMappingRequest` and gives a
/// `ProductCategoryMappingsResponse`.
pub proof fn lemma_delete_product_category_mapping_rpc(req: <DeleteProductCategoryMapping as Rpc>::Request, resp: <DeleteProductCategoryMapping as Rpc>::Response)
    ensures
        <DeleteProductCategoryMapping as Rpc>::spec_method() == Method::DeleteProductCategoryMapping,
        req == (crate::messages::DeleteProductCategoryMappingRequest { product_id: req.product_id, category_id: req.category_id }),
        resp == (crate::messages::ProductCategoryMappingsResponse { items: resp.items }),
{
}

/// `CreateProductAttributeMapping` is the method `CreateProductAttributeMapping`; it takes a `CreateProductAttributeMappingRequest` and gives a
/// `ProductAttributeMappingsResponse`.
pub proof fn lemma_create_product_attribute_mapping_rpc(req: <CreateProductAttributeMapping as Rpc>::Request, resp: <CreateProductAttributeMapping as Rpc>::Response)
    ensures
        <CreateProductAttributeMapping as Rpc>::spec_method() == Method::CreateProductAttributeMapping,
        req == (crate::messages::CreateProductAttributeMappingRequest { product_id: req.product_id, attribute_id: req.attribute_id }),
        resp == (crate::messages::ProductAttributeMappingsResponse { items: resp.items }),
{
}

/// `GetProductAttributeMapping` is the method `GetProductAttributeMapping`; it takes a `GetProductAttributeMappingRequest` and gives a
/// `ProductAttributeMappingResponse`.
pub proof fn lemma_get_product_attribute_mapping_rpc(req: <GetProductAttributeMapping as Rpc>::Request, resp: <GetProductAttributeMapping as Rpc>::Response)
    ensures
        <GetProductAttributeMapping as Rpc>::spec_method() == Method::GetProductAttributeMapping,
        req == (crate::messages::GetProductAttributeMappingRequest { product_id: req.product_id, attribute_id: req.attribute_id }),
        resp == (crate::messages::ProductAttributeMappingResponse { product_id: resp.product_id, attribute_id: resp.attribute_id }),
{
}

/// `DeleteProductAttributeMapping` is the method `DeleteProductAttributeMapping`; it takes a `DeleteProductAttributeMappingRequest` and gives a
/// `ProductAttributeMappingsResponse`.
pub proof fn lemma_delete_product_attribute_mapping_rpc(req: <DeleteProductAttributeMapping as Rpc>::Request, resp: <DeleteProductAttributeMapping as Rpc>::Response)
    ensures
        <DeleteProductAttributeMapping as Rpc>::spec_method() == Method::DeleteProductAttributeMapping,
        req == (crate::messages::DeleteProductAttributeMappingRequest { product_id: req.product_id, attribute_id: req.attribute_id }),
        resp == (crate::messages::ProductAttributeMappingsResponse { items: resp.items }),
{
}

/// `CreateUserRoleMapping` is the method `CreateUserRoleMapping`; it takes a `CreateUserRoleMappingRequest` and gives a
/// `UserRoleMappingsResponse`.
pub proof fn lemma_create_user_role_mapping_rpc(req: <CreateUserRoleMapping as Rpc>::Request, resp: <CreateUserRoleMapping as Rpc>::Response)
    ensures
        <CreateUserRoleMapping as Rpc>::spec_method() == Method::CreateUserRoleMapping,
        req == (crate::messages::CreateUserRoleMappingRequest { user_id: req.user_id, role_id: req.role_id }),
        resp == (crate::messages::UserRoleMappingsResponse { items: resp.items }),
{
}

/// `GetUserRoleMapping` is the method `GetUserRoleMapping`; it takes a `GetUserRoleMappingRequest` and gives a
/// `UserRoleMappingResponse`.
pub proof fn lemma_get_user_role_mapping_rpc(req: <GetUserRoleMapping as Rpc>::Request, resp: <GetUserRoleMapping as Rpc>::Response)
    ensures
        <GetUserRoleMapping as Rpc>::spec_method() == Method::GetUserRoleMapping,
        req == (crate::messages::GetUserRoleMappingRequest { user_id: req.user_id, role_id: req.role_id }),
        resp == (crate::messages::UserRoleMappingResponse { user_id: resp.user_id, role_id: resp.role_id }),
{
}

/// `DeleteUserRoleMapping` is the method `DeleteUserRoleMapping`; it takes a `DeleteUserRoleMappingRequest` and gives a
/// `UserRoleMappingsResponse`.
pub proof fn lemma_delete_user_role_mapping_rpc(req: <DeleteUserRoleMapping as Rpc>::Request, resp: <DeleteUserRoleMapping as Rpc>::Response)
    ensures
        <DeleteUserRoleMapping as Rpc>::spec_method() == Method::DeleteUserRoleMapping,
        req == (crate::messages::DeleteUserRoleMappingRequest { user_id: req.user_id, role_id: req.role_id }),
        resp == (crate::messages::UserRoleMappingsResponse { items: resp.items }),
{
}

/// `CreateProductSizeMapping` is the method `CreateProductSizeMapping`; it takes a `CreateProductSizeMappingRequest` and gives a
/// `ProductSizeMappingsResponse`.
pub proof fn lemma_create_product_size_mapping_rpc(req: <CreateProductSizeMapping as Rpc>::Request, resp: <CreateProductSizeMapping as Rpc>::Response)
    ensures
        <CreateProductSizeMapping as Rpc>::spec_method() == Method::CreateProductSizeMapping,
        req == (crate::messages::CreateProductSizeMappingRequest { product_id: req.product_id, size_id: req.size_id }),
        resp == (crate::messages::ProductSizeMappingsResponse { items: resp.items }),
{
}

/// `GetProductSizeMapping` is the method `GetProductSizeMapping`; it takes a `GetProductSizeMappingRequest` and gives a
/// `ProductSizeMappingResponse`.
pub proof fn lemma_get_product_size_mapping_rpc(req: <GetProductSizeMapping as Rpc>::Request, resp: <GetProductSizeMapping as Rpc>::Response)
    ensures
        <GetProductSizeMapping as Rpc>::spec_method() == Method::GetProductSizeMapping,
        req == (crate::messages::GetProductSizeMappingRequest { product_id: req.product_id, size_id: req.size_id }),
        resp == (crate::messages::ProductSizeMappingResponse { product_id: resp.product_id, size_id: resp.size_id }),
{
}

/// `DeleteProductSizeMapping` is the method `DeleteProductSizeMapping`; it takes a `DeleteProductSizeMappingRequest` and gives a
/// `ProductSizeMappingsResponse`.
pub proof fn lemma_delete_product_size_mapping_rpc(req: <DeleteProductSizeMapping as Rpc>::Request, resp: <DeleteProductSizeMapping as Rpc>::Response)
    ensures
        <DeleteProductSizeMapping as Rpc>::spec_method() == Method::DeleteProductSizeMapping,
        req == (crate::messages::DeleteProductSizeMappingRequest { product_id: req.product_id, size_id: req.size_id }),
        resp == (crate::messages::ProductSizeMappingsResponse { items: resp.items }),
{
}

/// `CreateProductColorMapping` is the method `CreateProductColorMapping`; it takes a `CreateProductColorMappingRequest` and gives a
/// `ProductColorMappingsResponse`.
pub proof fn lemma_create_product_color_mapping_rpc(req: <CreateProductColorMapping as Rpc>::Request, resp: <CreateProductColorMapping as Rpc>::Response)
    ensures
        <CreateProductColorMapping as Rpc>::spec_method() == Method::CreateProductColorMapping,
        req == (crate::messages::CreateProductColorMappingRequest { product_id: req.product_id, color_id: req.color_id }),
        resp == (crate::messages::ProductColorMappingsResponse { items: resp.items }),
{
}

/// `GetProductColorMapping` is the method `GetProductColorMapping`; it takes a `GetProductColorMappingRequest` and gives a
/// `ProductColorMappingResponse`.
pub proof fn lemma_get_product_color_mapping_rpc(req: <GetProductColorMapping as Rpc>::Request, resp: <GetProductColorMapping as Rpc>::Response)
    ensures
        <GetProductColorMapping as Rpc>::spec_method() == Method::GetProductColorMapping,
        req == (crate::messages::GetProductColorMappingRequest { product_id: req.product_id, color_id: req.color_id }),
        resp == (crate::messages::ProductColorMappingResponse { product_id: resp.product_id, color_id: resp.color_id }),
{
}

/// `DeleteProductColorMapping` is the method `DeleteProductColorMapping`; it takes a `DeleteProductColorMappingRequest` and gives a
/// `ProductColorMappingsResponse`.
pub proof fn lemma_delete_product_color_mapping_rpc(req: <DeleteProductColorMapping as Rpc>::Request, resp: <DeleteProductColorMapping as Rpc>::Response)
    ensures
        <DeleteProductColorMapping as Rpc>::spec_method() == Method::DeleteProductColorMapping,
        req == (crate::messages::DeleteProductColorMappingRequest { product_id: req.product_id, color_id: req.color_id }),
        resp == (crate::messages::ProductColorMappingsResponse { items: resp.items }),
{
}

/// `CreateProductVariant` is the method `CreateProductVariant`; it takes a `CreateProductVariantRequest` and gives a
/// `ProductVariantsResponse`.
pub proof fn lemma_create_product_variant_rpc(req: <CreateProductVariant as Rpc>::Request, resp: <CreateProductVariant as Rpc>::Response)
    ensures
        <CreateProductVariant as Rpc>::spec_method() == Method::CreateProductVariant,
        req == (crate::messages::CreateProductVariantRequest { product_id: req.product_id, size_id: req.size_id, color_id: req.color_id, additional_price: req.additional_price }),
        resp == (crate::messages::ProductVariantsResponse { items: resp.items }),
{
}

/// `GetProductVariant` is the method `GetProductVariant`; it takes a `GetProductVariantRequest` and gives a
/// `ProductVariantResponse`.
pub proof fn lemma_get_product_variant_rpc(req: <GetProductVariant as Rpc>::Request, resp: <GetProductVariant as Rpc>::Response)
    ensures
        <GetProductVariant as Rpc>::spec_method() == Method::GetProductVariant,
        req == (crate::messages::GetProductVariantRequest { variant_id: req.variant_id }),
        resp == (crate::messages::ProductVariantResponse { variant_id: resp.variant_id, product_id: resp.product_id, size_id: resp.size_id, color_id: resp.color_id, additional_price: resp.additional_price }),
{
}

/// `UpdateProductVariant` is the method `UpdateProductVariant`; it takes a `UpdateProductVariantRequest` and gives a
/// `ProductVariantsResponse`.
pub proof fn lemma_update_product_variant_rpc(req: <UpdateProductVariant as Rpc>::Request, resp: <UpdateProductVariant as Rpc>::Response)
    ensures
        <UpdateProductVariant as Rpc>::spec_method() == Method::UpdateProductVariant,
        req == (crate::messages::UpdateProductVariantRequest { variant_id: req.variant_id, product_id: req.product_id, size_id: req.size_id, color_id: req.color_id, additional_price: req.additional_price }),
        resp == (crate::messages::ProductVariantsResponse { items: resp.items }),
{
}

/// `DeleteProductVariant` is the method `DeleteProductVariant`; it takes a `DeleteProductVariantRequest` and gives a
/// `ProductVariantsResponse`.
pub proof fn lemma_delete_product_variant_rpc(req: <DeleteProductVariant as Rpc>::Request, resp: <DeleteProductVariant as Rpc>::Response)
    ensures
        <DeleteProductVariant as Rpc>::spec_method() == Method::DeleteProductVariant,
        req == (crate::messages::DeleteProductVariantRequest { variant_id: req.variant_id }),
        resp == (crate::messages::ProductVariantsResponse { items: resp.items }),
{
}

/// `CreateEventLog` is the method `CreateEventLog`; it takes a `CreateEventLogRequest` and gives a
/// `EventLogsResponse`.
pub proof fn lemma_create_event_log_rpc(req: <CreateEventLog as Rpc>::Request, resp: <CreateEventLog as Rpc>::Response)
    ensures
        <CreateEventLog as Rpc>::spec_method() == Method::CreateEventLog,
        req == (crate::messages::CreateEventLogRequest { event_type: req.event_type, event_description: req.event_description, user_id: req.user_id }),
        resp == (crate::messages::EventLogsResponse { items: resp.items }),
{
}

/// `GetEventLog` is the method `GetEventLog`; it takes a `GetEventLogRequest` and gives a
/// `EventLogResponse`.
pub proof fn lemma_get_event_log_rpc(req: <GetEventLog as Rpc>::Request, resp: <GetEventLog as Rpc>::Response)
    ensures
        <GetEventLog as Rpc>::spec_method() == Method::GetEventLog,
        req == (crate::messages::GetEventLogRequest { log_id: req.log_id }),
        resp == (crate::messages::EventLogResponse { log_id: resp.log_id, event_type: resp.event_type, event_description: resp.event_description, user_id: resp.user_id, event_time: resp.event_time }),
{
}

/// `UpdateEventLog` is the method `UpdateEventLog`; it takes a `UpdateEventLogRequest` and gives a
/// `EventLogsResponse`.
pub proof fn lemma_update_event_log_rpc(req: <UpdateEventLog as Rpc>::Request, resp: <UpdateEventLog as Rpc>::Response)
    ensures
        <UpdateEventLog as Rpc>::spec_method() == Method::UpdateEventLog,
        req == (crate::messages::UpdateEventLogRequest { log_id: req.log_id, event_type: req.event_type, event_description: req.event_description, user_id: req.user_id }),
        resp == (crate::messages::EventLogsResponse { items: resp.items }),
{
}

/// `DeleteEventLog` is the method `DeleteEventLog`; it takes a `DeleteEventLogRequest` and gives a
/// `EventLogsResponse`.
pub proof fn lemma_delete_event_log_rpc(req: <DeleteEventLog as Rpc>::Request, resp: <DeleteEventLog as Rpc>::Response)
    ensures
        <DeleteEventLog as Rpc>::spec_method() == Method::DeleteEventLog,
        req == (crate::messages::DeleteEventLogRequest { log_id: req.log_id }),
        resp == (crate::messages::EventLogsResponse { items: resp.items }),
{
}

/// `CreateUserActivity` is the method `CreateUserActivity`; it takes a `CreateUserActivityRequest` and gives a
/// `UserActivitiesResponse`.
pub proof fn lemma_create_user_activity_rpc(req: <CreateUserActivity as Rpc>::Request, resp: <CreateUserActivity as Rpc>::Response)
    ensures
        <CreateUserActivity as Rpc>::spec_method() == Method::CreateUserActivity,
        req == (crate::messages::CreateUserActivityRequest { user_id: req.user_id, activity_type: req.activity_type, activity_details: req.activity_details }),
        resp == (crate::messages::UserActivitiesResponse { items: resp.items }),
{
}

/// `GetUserActivity` is the method `GetUserActivity`; it takes a `GetUserActivityRequest` and gives a
/// `UserActivityResponse`.
pub proof fn lemma_get_user_activity_rpc(req: <GetUserActivity as Rpc>::Request, resp: <GetUserActivity as Rpc>::Response)
    ensures
        <GetUserActivity as Rpc>::spec_method() == Method::GetUserActivity,
        req == (crate::messages::GetUserActivityRequest { activity_id: req.activity_id }),
        resp == (crate::messages::UserActivityResponse { activity_id: resp.activity_id, user_id: resp.user_id, activity_type: resp.activity_type, activity_time: resp.activity_time, activity_details: resp.activity_details }),
{
}

/// `UpdateUserActivity` is the method `UpdateUserActivity`; it takes a `UpdateUserActivityRequest` and gives a
/// `UserActivitiesResponse`.
pub proof fn lemma_update_user_activity_rpc(req: <UpdateUserActivity as Rpc>::Request, resp: <UpdateUserActivity as Rpc>::Response)
    ensures
        <UpdateUserActivity as Rpc>::spec_method() == Method::UpdateUserActivity,
        req == (crate::messages::UpdateUserActivityRequest { activity_id: req.activity_id, user_id: req.user_id, activity_type: req.activity_type, activity_details: req.activity_details }),
        resp == (crate::messages::UserActivitiesResponse { items: resp.items }),
{
}

/// `DeleteUserActivity` is the method `DeleteUserActivity`; it takes a `DeleteUserActivityRequest` and gives a
/// `UserActivitiesResponse`.
pub proof fn lemma_delete_user_activity_rpc(req: <DeleteUserActivity as Rpc>::Request, resp: <DeleteUserActivity as Rpc>::Response)
    ensures
        <DeleteUserActivity as Rpc>::spec_method() == Method::DeleteUserActivity,
        req == (crate::messages::DeleteUserActivityRequest { activity_id: req.activity_id }),
        resp == (crate::messages::UserActivitiesResponse { items: resp.items }),
{
}

/// `CreateInventoryLog` is the method `CreateInventoryLog`; it takes a `CreateInventoryLogRequest` and gives a
/// `InventoryLogsResponse`.
pub proof fn lemma_create_inventory_log_rpc(req: <CreateInventoryLog as Rpc>::Request, resp: <CreateInventoryLog as Rpc>::Response)
    ensures
        <CreateInventoryLog as Rpc>::spec_method() == Method::CreateInventoryLog,
        req == (crate::messages::CreateInventoryLogRequest { product_id: req.product_id, change_quantity: req.change_quantity, reason: req.reason }),
        resp == (crate::messages::InventoryLogsResponse { items: resp.items }),
{
}

/// `GetInventoryLog` is the method `GetInventoryLog`; it takes a `GetInventoryLogRequest` and gives a
/// `InventoryLogResponse`.
pub proof fn lemma_get_inventory_log_rpc(req: <GetInventoryLog as Rpc>::Request, resp: <GetInventoryLog as Rpc>::Response)
    ensures
        <GetInventoryLog as Rpc>::spec_method() == Method::GetInventoryLog,
        req == (crate::messages::GetInventoryLogRequest { log_id: req.log_id }),
        resp == (crate::messages::InventoryLogResponse { log_id: resp.log_id, product_id: resp.product_id, change_quantity: resp.change_quantity, log_time: resp.log_time, reason: resp.reason }),
{
}

/// `UpdateInventoryLog` is the method `UpdateInventoryLog`; it takes a `UpdateInventoryLogRequest` and gives a
/// `InventoryLogsResponse`.
pub proof fn lemma_update_inventory_log_rpc(req: <UpdateInventoryLog as Rpc>::Request, resp: <UpdateInventoryLog as Rpc>::Response)
    ensures
        <UpdateInventoryLog as Rpc>::spec_method() == Method::UpdateInventoryLog,
        req == (crate::messages::UpdateInventoryLogRequest { log_id: req.log_id, product_id: req.product_id, change_quantity: req.change_quantity, reason: req.reason }),
        resp == (crate::messages::InventoryLogsResponse { items: resp.items }),
{
}

/// `DeleteInventoryLog` is the method `DeleteInventoryLog`; it takes a `DeleteInventoryLogRequest` and gives a
/// `InventoryLogsResponse`.
pub proof fn lemma_delete_inventory_log_rpc(req: <DeleteInventoryLog as Rpc>::Request, resp: <DeleteInventoryLog as Rpc>::Response)
    ensures
        <DeleteInventoryLog as Rpc>::spec_method() == Method::DeleteInventoryLog,
        req == (crate::messages::DeleteInventoryLogRequest { log_id: req.log_id }),
        resp == (crate::messages::InventoryLogsResponse { items: resp.items }),
{
}

/// `CreatePromotion` is the method `CreatePromotion`; it takes a `CreatePromotionRequest` and gives a
/// `PromotionsResponse`.
pub proof fn lemma_create_promotion_rpc(req: <CreatePromotion as Rpc>::Request, resp: <CreatePromotion as Rpc>::Response)
    ensures
        <CreatePromotion as Rpc>::spec_method() == Method::CreatePromotion,
        req == (crate::messages::CreatePromotionRequest { promotion_name: req.promotion_name, start_date: req.start_date, end_date: req.end_date, details: req.details }),
        resp == (crate::messages::PromotionsResponse { items: resp.items }),
{
}

/// `GetPromotion` is the method `GetPromotion`; it takes a `GetPromotionRequest` and gives a
/// `PromotionResponse`.
pub proof fn lemma_get_promotion_rpc(req: <GetPromotion as Rpc>::Request, resp: <GetPromotion as Rpc>::Response)
    ensures
        <GetPromotion as Rpc>::spec_method() == Method::GetPromotion,
        req == (crate::messages::GetPromotionRequest { promotion_id: req.promotion_id }),
        resp == (crate::messages::PromotionResponse { promotion_id: resp.promotion_id, promotion_name: resp.promotion_name, start_date: resp.start_date, end_date: resp.end_date, details: resp.details }),
{
}

/// `UpdatePromotion` is the method `UpdatePromotion`; it takes a `UpdatePromotionRequest` and gives a
/// `PromotionsResponse`.
pub proof fn lemma_update_promotion_rpc(req: <UpdatePromotion as Rpc>::Request, resp: <UpdatePromotion as Rpc>::Response)
    ensures
        <UpdatePromotion as Rpc>::spec_method() == Method::UpdatePromotion,
        req == (crate::messages::UpdatePromotionRequest { promotion_id: req.promotion_id, promotion_name: req.promotion_name, start_date: req.start_date, end_date: req.end_date, details: req.details }),
        resp == (crate::messages::PromotionsResponse { items: resp.items }),
{
}

/// `DeletePromotion` is the method `DeletePromotion`; it takes a `DeletePromotionRequest` and gives a
/// `PromotionsResponse`.
pub proof fn lemma_delete_promotion_rpc(req: <DeletePromotion as Rpc>::Request, resp: <DeletePromotion as Rpc>::Response)
    ensures
        <DeletePromotion as Rpc>::spec_method() == Method::DeletePromotion,
        req == (crate::messages::DeletePromotionRequest { promotion_id: req.promotion_id }),
        resp == (crate::messages::PromotionsResponse { items: resp.items }),
{
}

/// `CreateShippingZone` is the method `CreateShippingZone`; it takes a `CreateShippingZoneRequest` and gives a
/// `ShippingZonesResponse`.
pub proof fn lemma_create_shipping_zone_rpc(req: <CreateShippingZone as Rpc>::Request, resp: <CreateShippingZone as Rpc>::Response)
    ensures
        <CreateShippingZone as Rpc>::spec_method() == Method::CreateShippingZone,
        req == (crate::messages::CreateShippingZoneRequest { zone_name: req.zone_name, description: req.description }),
        resp == (crate::messages::ShippingZonesResponse { items: resp.items }),
{
}

/// `GetShippingZone` is the method `GetShippingZone`; it takes a `GetShippingZoneRequest` and gives a
/// `ShippingZoneResponse`.
pub proof fn lemma_get_shipping_zone_rpc(req: <GetShippingZone as Rpc>::Request, resp: <GetShippingZone as Rpc>::Response)
    ensures
        <GetShippingZone as Rpc>::spec_method() == Method::GetShippingZone,
        req == (crate::messages::GetShippingZoneRequest { zone_id: req.zone_id }),
        resp == (crate::messages::ShippingZoneResponse { zone_id: resp.zone_id, zone_name: resp.zone_name, description: resp.description }),
{
}

/// `UpdateShippingZone` is the method `UpdateShippingZone`; it takes a `UpdateShippingZoneRequest` and gives a
/// `ShippingZonesResponse`.
pub proof fn lemma_update_shipping_zone_rpc(req: <UpdateShippingZone as Rpc>::Request, resp: <UpdateShippingZone as Rpc>::Response)
    ensures
        <UpdateShippingZone as Rpc>::spec_method() == Method::UpdateShippingZone,
        req == (crate::messages::UpdateShippingZoneRequest { zone_id: req.zone_id, zone_name: req.zone_name, description: req.description }),
        resp == (crate::messages::ShippingZonesResponse { items: resp.items }),
{
}

/// `DeleteShippingZone` is the method `DeleteShippingZone`; it takes a `DeleteShippingZoneRequest` and gives a
/// `ShippingZonesResponse`.
pub proof fn lemma_delete_shipping_zone_rpc(req: <DeleteShippingZone as Rpc>::Request, resp: <DeleteShippingZone as Rpc>::Response)
    ensures
        <DeleteShippingZone as Rpc>::spec_method() == Method::DeleteShippingZone,
        req == (crate::messages::DeleteShippingZoneRequest { zone_id: req.zone_id }),
        resp == (crate::messages::ShippingZonesResponse { items: resp.items }),
{
}

/// `CreatePaymentMethod` is the method `CreatePaymentMethod`; it takes a `CreatePaymentMethodRequest` and gives a
/// `PaymentMethodsResponse`.
pub proof fn lemma_create_payment_method_rpc(req: <CreatePaymentMethod as Rpc>::Request, resp: <CreatePaymentMethod as Rpc>::Response)
    ensures
        <CreatePaymentMethod as Rpc>::spec_method() == Method::CreatePaymentMethod,
        req == (crate::messages::CreatePaymentMethodRequest { method_name: req.method_name, details: req.details }),
        resp == (crate::messages::PaymentMethodsResponse { items: resp.items }),
{
}

/// `GetPaymentMethod` is the method `GetPaymentMethod`; it takes a `GetPaymentMethodRequest` and gives a
/// `PaymentMethodResponse`.
pub proof fn lemma_get_payment_method_rpc(req: <GetPaymentMethod as Rpc>::Request, resp: <GetPaymentMethod as Rpc>::Response)
    ensures
        <GetPaymentMethod as Rpc>::spec_method() == Method::GetPaymentMethod,
        req == (crate::messages::GetPaymentMethodRequest { method_id: req.method_id }),
        resp == (crate::messages::PaymentMethodResponse { method_id: resp.method_id, method_name: resp.method_name, details: resp.details }),
{
}

/// `UpdatePaymentMethod` is the method `UpdatePaymentMethod`; it takes a `UpdatePaymentMethodRequest` and gives a
/// `PaymentMethodsResponse`.
pub proof fn lemma_update_payment_method_rpc(req: <UpdatePaymentMethod as Rpc>::Request, resp: <UpdatePaymentMethod as Rpc>::Response)
    ensures
        <UpdatePaymentMethod as Rpc>::spec_method() == Method::UpdatePaymentMethod,
        req == (crate::messages::UpdatePaymentMethodRequest { method_id: req.method_id, method_name: req.method_name, details: req.details }),
        resp == (crate::messages::PaymentMethodsResponse { items: resp.items }),
{
}

/// `DeletePaymentMethod` is the method `DeletePaymentMethod`; it takes a `DeletePaymentMethodRequest` and gives a
/// `PaymentMethodsResponse`.
pub proof fn lemma_delete_payment_method_rpc(req: <DeletePaymentMethod as Rpc>::Request, resp: <DeletePaymentMethod as Rpc>::Response)
    ensures
        <DeletePaymentMethod as Rpc>::spec_method() == Method::DeletePaymentMethod,
        req == (crate::messages::DeletePaymentMethodRequest { method_id: req.method_id }),
        resp == (crate::messages::PaymentMethodsResponse { items: resp.items }),
{
}

} // verus!
