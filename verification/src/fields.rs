//! Where each field of each message goes on the wire: the field numbers
//! and types that the protocol gives the fields, by name. A message's
//! encoding (`encode_to_vec`) writes, and its decoding (`decode`) reads, the
//! `i`-th value of `spec_values` under field number `i + 1`, so these laws
//! fix which named field each number carries.

use vstd::prelude::*;
use crate::message::{ProtoList, ProtoMessage};
use crate::record::{opt_chars, Kind, ScalarValue};
use crate::messages::{
    CreateCartItemRequest, GetCartItemsRequest, UpdateCartItemRequest, DeleteCartItemRequest,
    CartItemResponse, CartItemsResponse, CreateProductRequest, SearchProductRequest,
    UpdateProductRequest, DeleteProductRequest, ProductResponse, ProductsResponse,
    CreateUserRequest, GetUserRequest, UpdateUserRequest, DeleteUserRequest,
    UserResponse, UsersResponse, CreateCategoryRequest, GetCategoryRequest,
    UpdateCategoryRequest, DeleteCategoryRequest, CategoryResponse, CategoriesResponse,
    CreateOrderRequest, GetOrderRequest, UpdateOrderRequest, DeleteOrderRequest,
    OrderResponse, OrdersResponse, CreateOrderDetailRequest, GetOrderDetailRequest,
    UpdateOrderDetailRequest, DeleteOrderDetailRequest, OrderDetailResponse, OrderDetailsResponse,
    CreateReviewRequest, GetReviewRequest, UpdateReviewRequest, DeleteReviewRequest,
    ReviewResponse, ReviewsResponse, CreateProductImageRequest, GetProductImageRequest,
    UpdateProductImageRequest, DeleteProductImageRequest, ProductImageResponse, ProductImagesResponse,
    CreateSupplierRequest, GetSupplierRequest, UpdateSupplierRequest, DeleteSupplierRequest,
    SupplierResponse, SuppliersResponse, CreateInventoryItemRequest, GetInventoryItemRequest,
    UpdateInventoryItemRequest, DeleteInventoryItemRequest, InventoryItemResponse, InventoryItemsResponse,
    CreateWishlistItemRequest, GetWishlistItemRequest, UpdateWishlistItemRequest, DeleteWishlistItemRequest,
    WishlistItemResponse, WishlistItemsResponse, CreateProductAttributeRequest, GetProductAttributeRequest,
    UpdateProductAttributeRequest, DeleteProductAttributeRequest, ProductAttributeResponse, ProductAttributesResponse,
    CreateDiscountRequest, GetDiscountRequest, UpdateDiscountRequest, DeleteDiscountRequest,
    DiscountResponse, DiscountsResponse, CreateShippingMethodRequest, GetShippingMethodRequest,
    UpdateShippingMethodRequest, DeleteShippingMethodRequest, ShippingMethodResponse, ShippingMethodsResponse,
    CreateUserRoleRequest, GetUserRoleRequest, UpdateUserRoleRequest, DeleteUserRoleRequest,
    UserRoleResponse, UserRolesResponse, CreateUserRolesMappingRequest, GetUserRolesMappingRequest,
    UpdateUserRolesMappingRequest, DeleteUserRolesMappingRequest, UserRolesMappingResponse, UserRolesMappingsResponse,
    CreateTransactionRequest, GetTransactionRequest, UpdateTransactionRequest, DeleteTransactionRequest,
    TransactionResponse, TransactionsResponse, CreateNewsletterSubscriberRequest, GetNewsletterSubscriberRequest,
    UpdateNewsletterSubscriberRequest, DeleteNewsletterSubscriberRequest, NewsletterSubscriberResponse, NewsletterSubscribersResponse,
    CreateProductRatingRequest, GetProductRatingRequest, UpdateProductRatingRequest, DeleteProductRatingRequest,
    ProductRatingResponse, ProductRatingsResponse, CreateSizeRequest, GetSizeRequest,
    UpdateSizeRequest, DeleteSizeRequest, SizeResponse, SizesResponse,
    CreateColorRequest, GetColorRequest, UpdateColorRequest, DeleteColorRequest,
    ColorResponse, ColorsResponse, CreateProductCategoryMappingRequest, GetProductCategoryMappingRequest,
    DeleteProductCategoryMappingRequest, ProductCategoryMappingResponse, ProductCategoryMappingsResponse, CreateProductAttributeMappingRequest,
    GetProductAttributeMappingRequest, DeleteProductAttributeMappingRequest, ProductAttributeMappingResponse, ProductAttributeMappingsResponse,
    CreateUserRoleMappingRequest, GetUserRoleMappingRequest, DeleteUserRoleMappingRequest, UserRoleMappingResponse,
    UserRoleMappingsResponse, CreateProductSizeMappingRequest, GetProductSizeMappingRequest, DeleteProductSizeMappingRequest,
    ProductSizeMappingResponse, ProductSizeMappingsResponse, CreateProductColorMappingRequest, GetProductColorMappingRequest,
    DeleteProductColorMappingRequest, ProductColorMappingResponse, ProductColorMappingsResponse, CreateProductVariantRequest,
    GetProductVariantRequest, UpdateProductVariantRequest, DeleteProductVariantRequest, ProductVariantResponse,
    ProductVariantsResponse, CreateEventLogRequest, GetEventLogRequest, UpdateEventLogRequest,
    DeleteEventLogRequest, EventLogResponse, EventLogsResponse, CreateUserActivityRequest,
    GetUserActivityRequest, UpdateUserActivityRequest, DeleteUserActivityRequest, UserActivityResponse,
    UserActivitiesResponse, CreateInventoryLogRequest, GetInventoryLogRequest, UpdateInventoryLogRequest,
    DeleteInventoryLogRequest, InventoryLogResponse, InventoryLogsResponse, CreatePromotionRequest,
    GetPromotionRequest, UpdatePromotionRequest, DeletePromotionRequest, PromotionResponse,
    PromotionsResponse, CreateShippingZoneRequest, GetShippingZoneRequest, UpdateShippingZoneRequest,
    DeleteShippingZoneRequest, ShippingZoneResponse, ShippingZonesResponse, CreatePaymentMethodRequest,
    GetPaymentMethodRequest, UpdatePaymentMethodRequest, DeletePaymentMethodRequest, PaymentMethodResponse,
    PaymentMethodsResponse,
};

verus! {

/// The fields of `CreateCartItemRequest` by number: 1 `user_id`, 2 `product_id`, 3 `quantity`.
pub proof fn lemma_create_cart_item_request_fields(m: CreateCartItemRequest)
    ensures
        CreateCartItemRequest::spec_schema() == seq![Kind::Int64, Kind::Int64, Kind::Int64],
        m.spec_values() == seq![
            ScalarValue::Int64(m.user_id),
            ScalarValue::Int64(m.product_id),
            ScalarValue::Int64(m.quantity),
        ],
{
}

/// The fields of `GetCartItemsRequest` by number: 1 `user_id`.
pub proof fn lemma_get_cart_items_request_fields(m: GetCartItemsRequest)
    ensures
        GetCartItemsRequest::spec_schema() == seq![Kind::Int64],
        m.spec_values() == seq![
            ScalarValue::Int64(m.user_id),
        ],
{
}

/// The fields of `UpdateCartItemRequest` by number: 1 `cart_id`, 2 `user_id`, 3 `product_id`, 4 `quantity`.
pub proof fn lemma_update_cart_item_request_fields(m: UpdateCartItemRequest)
    ensures
        UpdateCartItemRequest::spec_schema() == seq![Kind::Int64, Kind::Int64, Kind::Int64, Kind::Int64],
        m.spec_values() == seq![
            ScalarValue::Int64(m.cart_id),
            ScalarValue::Int64(m.user_id),
            ScalarValue::Int64(m.product_id),
            ScalarValue::Int64(m.quantity),
        ],
{
}

/// The fields of `DeleteCartItemRequest` by number: 1 `cart_id`.
pub proof fn lemma_delete_cart_item_request_fields(m: DeleteCartItemRequest)
    ensures
        DeleteCartItemRequest::spec_schema() == seq![Kind::Int64],
        m.spec_values() == seq![
            ScalarValue::Int64(m.cart_id),
        ],
{
}

/// The fields of `CartItemResponse` by number: 1 `cart_id`, 2 `user_id`, 3 `product_id`, 4 `quantity`.
pub proof fn lemma_cart_item_response_fields(m: CartItemResponse)
    ensures
        CartItemResponse::spec_schema() == seq![Kind::Int64, Kind::Int64, Kind::Int64, Kind::Int64],
        m.spec_values() == seq![
            ScalarValue::Int64(m.cart_id),
            ScalarValue::Int64(m.user_id),
            ScalarValue::Int64(m.product_id),
            ScalarValue::Int64(m.quantity),
        ],
{
}

/// `CartItemsResponse` holds its entries, in order, in its field `items` (number 1),
/// each a `CartItemResponse`.
pub proof fn lemma_cart_items_response_fields(m: CartItemsResponse)
    ensures
        m.spec_items() == m.items@,
{
}

/// The fields of `CreateProductRequest` by number: 1 `name`, 2 `description`, 3 `price`, 4 `stock_quantity`, 5 `category_id`.
pub proof fn lemma_create_product_request_fields(m: CreateProductRequest)
    ensures
        CreateProductRequest::spec_schema() == seq![Kind::Str, Kind::OptStr, Kind::Double, Kind::OptInt64, Kind::OptInt64],
        m.spec_values() == seq![
            ScalarValue::Str(m.name@),
            ScalarValue::OptStr(opt_chars(m.description)),
            ScalarValue::Double(m.price),
            ScalarValue::OptInt64(m.stock_quantity),
            ScalarValue::OptInt64(m.category_id),
        ],
{
}

/// The fields of `SearchProductRequest` by number: 1 `name`, 2 `description`, 3 `starting_price`, 4 `stock_quantity`, 5 `category_id`, 6 `ending_price`, 7 `product_id`.
pub proof fn lemma_search_product_request_fields(m: SearchProductRequest)
    ensures
        SearchProductRequest::spec_schema() == seq![Kind::OptStr, Kind::OptStr, Kind::OptDouble, Kind::OptInt64, Kind::OptInt64, Kind::OptDouble, Kind::OptInt64],
        m.spec_values() == seq![
            ScalarValue::OptStr(opt_chars(m.name)),
            ScalarValue::OptStr(opt_chars(m.description)),
            ScalarValue::OptDouble(m.starting_price),
            ScalarValue::OptInt64(m.stock_quantity),
            ScalarValue::OptInt64(m.category_id),
            ScalarValue::OptDouble(m.ending_price),
            ScalarValue::OptInt64(m.product_id),
        ],
{
}

/// The fields of `UpdateProductRequest` by number: 1 `name`, 2 `description`, 3 `price`, 4 `stock_quantity`, 5 `category_id`, 6 `product_id`.
pub proof fn lemma_update_product_request_fields(m: UpdateProductRequest)
    ensures
        UpdateProductRequest::spec_schema() == seq![Kind::Str, Kind::OptStr, Kind::Double, Kind::OptInt64, Kind::OptInt64, Kind::Int64],
        m.spec_values() == seq![
            ScalarValue::Str(m.name@),
            ScalarValue::OptStr(opt_chars(m.description)),
            ScalarValue::Double(m.price),
            ScalarValue::OptInt64(m.stock_quantity),
            ScalarValue::OptInt64(m.category_id),
            ScalarValue::Int64(m.product_id),
        ],
{
}

/// The fields of `DeleteProductRequest` by number: 1 `product_id`.
pub proof fn lemma_delete_product_request_fields(m: DeleteProductRequest)
    ensures
        DeleteProductRequest::spec_schema() == seq![Kind::Int64],
        m.spec_values() == seq![
            ScalarValue::Int64(m.product_id),
        ],
{
}

/// The fields of `ProductResponse` by number: 1 `name`, 2 `description`, 3 `price`, 4 `stock_quantity`, 5 `category_id`, 6 `product_id`.
pub proof fn lemma_product_response_fields(m: ProductResponse)
    ensures
        ProductResponse::spec_schema() == seq![Kind::Str, Kind::OptStr, Kind::Double, Kind::OptInt64, Kind::OptInt64, Kind::Int64],
        m.spec_values() == seq![
            ScalarValue::Str(m.name@),
            ScalarValue::OptStr(opt_chars(m.description)),
            ScalarValue::Double(m.price),
            ScalarValue::OptInt64(m.stock_quantity),
            ScalarValue::OptInt64(m.category_id),
            ScalarValue::Int64(m.product_id),
        ],
{
}

/// `ProductsResponse` holds its entries, in order, in its field `items` (number 1),
/// each a `ProductResponse`.
pub proof fn lemma_products_response_fields(m: ProductsResponse)
    ensures
        m.spec_items() == m.items@,
{
}

/// The fields of `CreateUserRequest` by number: 1 `username`, 2 `password`, 3 `email`, 4 `full_name`, 5 `address`, 6 `phone`.
pub proof fn lemma_create_user_request_fields(m: CreateUserRequest)
    ensures
        CreateUserRequest::spec_schema() == seq![Kind::Str, Kind::Str, Kind::Str, Kind::OptStr, Kind::OptStr, Kind::OptStr],
        m.spec_values() == seq![
            ScalarValue::Str(m.username@),
            ScalarValue::Str(m.password@),
            ScalarValue::Str(m.email@),
            ScalarValue::OptStr(opt_chars(m.full_name)),
            ScalarValue::OptStr(opt_chars(m.address)),
            ScalarValue::OptStr(opt_chars(m.phone)),
        ],
{
}

/// The fields of `GetUserRequest` by number: 1 `user_id`.
pub proof fn lemma_get_user_request_fields(m: GetUserRequest)
    ensures
        GetUserRequest::spec_schema() == seq![Kind::Int64],
        m.spec_values() == seq![
            ScalarValue::Int64(m.user_id),
        ],
{
}

/// The fields of `UpdateUserRequest` by number: 1 `user_id`, 2 `username`, 3 `password`, 4 `email`, 5 `full_name`, 6 `address`, 7 `phone`.
pub proof fn lemma_update_user_request_fields(m: UpdateUserRequest)
    ensures
        UpdateUserRequest::spec_schema() == seq![Kind::Int64, Kind::OptStr, Kind::OptStr, Kind::OptStr, Kind::OptStr, Kind::OptStr, Kind::OptStr],
        m.spec_values() == seq![
            ScalarValue::Int64(m.user_id),
            ScalarValue::OptStr(opt_chars(m.username)),
            ScalarValue::OptStr(opt_chars(m.password)),
            ScalarValue::OptStr(opt_chars(m.email)),
            ScalarValue::OptStr(opt_chars(m.full_name)),
            ScalarValue::OptStr(opt_chars(m.address)),
            ScalarValue::OptStr(opt_chars(m.phone)),
        ],
{
}

/// The fields of `DeleteUserRequest` by number: 1 `user_id`.
pub proof fn lemma_delete_user_request_fields(m: DeleteUserRequest)
    ensures
        DeleteUserRequest::spec_schema() == seq![Kind::Int64],
        m.spec_values() == seq![
            ScalarValue::Int64(m.user_id),
        ],
{
}

/// The fields of `UserResponse` by number: 1 `user_id`, 2 `username`, 3 `email`, 4 `full_name`, 5 `address`, 6 `phone`, 7 `create_date`.
pub proof fn lemma_user_response_fields(m: UserResponse)
    ensures
        UserResponse::spec_schema() == seq![Kind::Int64, Kind::Str, Kind::Str, Kind::OptStr, Kind::OptStr, Kind::OptStr, Kind::Str],
        m.spec_values() == seq![
            ScalarValue::Int64(m.user_id),
            ScalarValue::Str(m.username@),
            ScalarValue::Str(m.email@),
            ScalarValue::OptStr(opt_chars(m.full_name)),
            ScalarValue::OptStr(opt_chars(m.address)),
            ScalarValue::OptStr(opt_chars(m.phone)),
            ScalarValue::Str(m.create_date@),
        ],
{
}

/// `UsersResponse` holds its entries, in order, in its field `items` (number 1),
/// each a `UserResponse`.
pub proof fn lemma_users_response_fields(m: UsersResponse)
    ensures
        m.spec_items() == m.items@,
{
}

/// The fields of `CreateCategoryRequest` by number: 1 `name`.
pub proof fn lemma_create_category_request_fields(m: CreateCategoryRequest)
    ensures
        CreateCategoryRequest::spec_schema() == seq![Kind::Str],
        m.spec_values() == seq![
            ScalarValue::Str(m.name@),
        ],
{
}

/// The fields of `GetCategoryRequest` by number: 1 `category_id`.
pub proof fn lemma_get_category_request_fields(m: GetCategoryRequest)
    ensures
        GetCategoryRequest::spec_schema() == seq![Kind::Int64],
        m.spec_values() == seq![
            ScalarValue::Int64(m.category_id),
        ],
{
}

/// The fields of `UpdateCategoryRequest` by number: 1 `category_id`, 2 `name`.
pub proof fn lemma_update_category_request_fields(m: UpdateCategoryRequest)
    ensures
        UpdateCategoryRequest::spec_schema() == seq![Kind::Int64, Kind::Str],
        m.spec_values() == seq![
            ScalarValue::Int64(m.category_id),
            ScalarValue::Str(m.name@),
        ],
{
}

/// The fields of `DeleteCategoryRequest` by number: 1 `category_id`.
pub proof fn lemma_delete_category_request_fields(m: DeleteCategoryRequest)
    ensures
        DeleteCategoryRequest::spec_schema() == seq![Kind::Int64],
        m.spec_values() == seq![
            ScalarValue::Int64(m.category_id),
        ],
{
}

/// The fields of `CategoryResponse` by number: 1 `category_id`, 2 `name`.
pub proof fn lemma_category_response_fields(m: CategoryResponse)
    ensures
        CategoryResponse::spec_schema() == seq![Kind::Int64, Kind::Str],
        m.spec_values() == seq![
            ScalarValue::Int64(m.category_id),
            ScalarValue::Str(m.name@),
        ],
{
}

/// `CategoriesResponse` holds its entries, in order, in its field `items` (number 1),
/// each a `CategoryResponse`.
pub proof fn lemma_categories_response_fields(m: CategoriesResponse)
    ensures
        m.spec_items() == m.items@,
{
}

/// The fields of `CreateOrderRequest` by number: 1 `user_id`, 2 `shipping_address`, 3 `total_amount`, 4 `status_id`.
pub proof fn lemma_create_order_request_fields(m: CreateOrderRequest)
    ensures
        CreateOrderRequest::spec_schema() == seq![Kind::Int64, Kind::Str, Kind::Double, Kind::Int64],
        m.spec_values() == seq![
            ScalarValue::Int64(m.user_id),
            ScalarValue::Str(m.shipping_address@),
            ScalarValue::Double(m.total_amount),
            ScalarValue::Int64(m.status_id),
        ],
{
}

/// The fields of `GetOrderRequest` by number: 1 `order_id`.
pub proof fn lemma_get_order_request_fields(m: GetOrderRequest)
    ensures
        GetOrderRequest::spec_schema() == seq![Kind::Int64],
        m.spec_values() == seq![
            ScalarValue::Int64(m.order_id),
        ],
{
}

/// The fields of `UpdateOrderRequest` by number: 1 `order_id`, 2 `user_id`, 3 `shipping_address`, 4 `total_amount`, 5 `status_id`.
pub proof fn lemma_update_order_request_fields(m: UpdateOrderRequest)
    ensures
        UpdateOrderRequest::spec_schema() == seq![Kind::Int64, Kind::OptInt64, Kind::OptStr, Kind::OptDouble, Kind::OptInt64],
        m.spec_values() == seq![
            ScalarValue::Int64(m.order_id),
            ScalarValue::OptInt64(m.user_id),
            ScalarValue::OptStr(opt_chars(m.shipping_address)),
            ScalarValue::OptDouble(m.total_amount),
            ScalarValue::OptInt64(m.status_id),
        ],
{
}

/// The fields of `DeleteOrderRequest` by number: 1 `order_id`.
pub proof fn lemma_delete_order_request_fields(m: DeleteOrderRequest)
    ensures
        DeleteOrderRequest::spec_schema() == seq![Kind::Int64],
        m.spec_values() == seq![
            ScalarValue::Int64(m.order_id),
        ],
{
}

/// The fields of `OrderResponse` by number: 1 `order_id`, 2 `user_id`, 3 `order_date`, 4 `shipping_address`, 5 `total_amount`, 6 `status_id`.
pub proof fn lemma_order_response_fields(m: OrderResponse)
    ensures
        OrderResponse::spec_schema() == seq![Kind::Int64, Kind::Int64, Kind::Str, Kind::Str, Kind::Double, Kind::Int64],
        m.spec_values() == seq![
            ScalarValue::Int64(m.order_id),
            ScalarValue::Int64(m.user_id),
            ScalarValue::Str(m.order_date@),
            ScalarValue::Str(m.shipping_address@),
            ScalarValue::Double(m.total_amount),
            ScalarValue::Int64(m.status_id),
        ],
{
}

/// `OrdersResponse` holds its entries, in order, in its field `items` (number 1),
/// each a `OrderResponse`.
pub proof fn lemma_orders_response_fields(m: OrdersResponse)
    ensures
        m.spec_items() == m.items@,
{
}

/// The fields of `CreateOrderDetailRequest` by number: 1 `order_id`, 2 `product_id`, 3 `quantity`, 4 `price`.
pub proof fn lemma_create_order_detail_request_fields(m: CreateOrderDetailRequest)
    ensures
        CreateOrderDetailRequest::spec_schema() == seq![Kind::Int64, Kind::Int64, Kind::Int64, Kind::Double],
        m.spec_values() == seq![
            ScalarValue::Int64(m.order_id),
            ScalarValue::Int64(m.product_id),
            ScalarValue::Int64(m.quantity),
            ScalarValue::Double(m.price),
        ],
{
}

/// The fields of `GetOrderDetailRequest` by number: 1 `order_detail_id`.
pub proof fn lemma_get_order_detail_request_fields(m: GetOrderDetailRequest)
    ensures
        GetOrderDetailRequest::spec_schema() == seq![Kind::Int64],
        m.spec_values() == seq![
            ScalarValue::Int64(m.order_detail_id),
        ],
{
}

/// The fields of `UpdateOrderDetailRequest` by number: 1 `order_detail_id`, 2 `order_id`, 3 `product_id`, 4 `quantity`, 5 `price`.
pub proof fn lemma_update_order_detail_request_fields(m: UpdateOrderDetailRequest)
    ensures
        UpdateOrderDetailRequest::spec_schema() == seq![Kind::Int64, Kind::OptInt64, Kind::OptInt64, Kind::OptInt64, Kind::OptDouble],
        m.spec_values() == seq![
            ScalarValue::Int64(m.order_detail_id),
            ScalarValue::OptInt64(m.order_id),
            ScalarValue::OptInt64(m.product_id),
            ScalarValue::OptInt64(m.quantity),
            ScalarValue::OptDouble(m.price),
        ],
{
}

/// The fields of `DeleteOrderDetailRequest` by number: 1 `order_detail_id`.
pub proof fn lemma_delete_order_detail_request_fields(m: DeleteOrderDetailRequest)
    ensures
        DeleteOrderDetailRequest::spec_schema() == seq![Kind::Int64],
        m.spec_values() == seq![
            ScalarValue::Int64(m.order_detail_id),
        ],
{
}

/// The fields of `OrderDetailResponse` by number: 1 `order_detail_id`, 2 `order_id`, 3 `product_id`, 4 `quantity`, 5 `price`.
pub proof fn lemma_order_detail_response_fields(m: OrderDetailResponse)
    ensures
        OrderDetailResponse::spec_schema() == seq![Kind::Int64, Kind::Int64, Kind::Int64, Kind::Int64, Kind::Double],
        m.spec_values() == seq![
            ScalarValue::Int64(m.order_detail_id),
            ScalarValue::Int64(m.order_id),
            ScalarValue::Int64(m.product_id),
            ScalarValue::Int64(m.quantity),
            ScalarValue::Double(m.price),
        ],
{
}

/// `OrderDetailsResponse` holds its entries, in order, in its field `items` (number 1),
/// each a `OrderDetailResponse`.
pub proof fn lemma_order_details_response_fields(m: OrderDetailsResponse)
    ensures
        m.spec_items() == m.items@,
{
}

/// The fields of `CreateReviewRequest` by number: 1 `product_id`, 2 `user_id`, 3 `rating`, 4 `comment`.
pub proof fn lemma_create_review_request_fields(m: CreateReviewRequest)
    ensures
        CreateReviewRequest::spec_schema() == seq![Kind::Int64, Kind::Int64, Kind::Int64, Kind::Str],
        m.spec_values() == seq![
            ScalarValue::Int64(m.product_id),
            ScalarValue::Int64(m.user_id),
            ScalarValue::Int64(m.rating),
            ScalarValue::Str(m.comment@),
        ],
{
}

/// The fields of `GetReviewRequest` by number: 1 `review_id`.
pub proof fn lemma_get_review_request_fields(m: GetReviewRequest)
    ensures
        GetReviewRequest::spec_schema() == seq![Kind::Int64],
        m.spec_values() == seq![
            ScalarValue::Int64(m.review_id),
        ],
{
}

/// The fields of `UpdateReviewRequest` by number: 1 `review_id`, 2 `product_id`, 3 `user_id`, 4 `rating`, 5 `comment`.
pub proof fn lemma_update_review_request_fields(m: UpdateReviewRequest)
    ensures
        UpdateReviewRequest::spec_schema() == seq![Kind::Int64, Kind::OptInt64, Kind::OptInt64, Kind::OptInt64, Kind::OptStr],
        m.spec_values() == seq![
            ScalarValue::Int64(m.review_id),
            ScalarValue::OptInt64(m.product_id),
            ScalarValue::OptInt64(m.user_id),
            ScalarValue::OptInt64(m.rating),
            ScalarValue::OptStr(opt_chars(m.comment)),
        ],
{
}

/// The fields of `DeleteReviewRequest` by number: 1 `review_id`.
pub proof fn lemma_delete_review_request_fields(m: DeleteReviewRequest)
    ensures
        DeleteReviewRequest::spec_schema() == seq![Kind::Int64],
        m.spec_values() == seq![
            ScalarValue::Int64(m.review_id),
        ],
{
}

/// The fields of `ReviewResponse` by number: 1 `review_id`, 2 `product_id`, 3 `user_id`, 4 `rating`, 5 `comment`.
pub proof fn lemma_review_response_fields(m: ReviewResponse)
    ensures
        ReviewResponse::spec_schema() == seq![Kind::Int64, Kind::Int64, Kind::Int64, Kind::Int64, Kind::Str],
        m.spec_values() == seq![
            ScalarValue::Int64(m.review_id),
            ScalarValue::Int64(m.product_id),
            ScalarValue::Int64(m.user_id),
            ScalarValue::Int64(m.rating),
            ScalarValue::Str(m.comment@),
        ],
{
}

/// `ReviewsResponse` holds its entries, in order, in its field `items` (number 1),
/// each a `ReviewResponse`.
pub proof fn lemma_reviews_response_fields(m: ReviewsResponse)
    ensures
        m.spec_items() == m.items@,
{
}

/// The fields of `CreateProductImageRequest` by number: 1 `product_id`, 2 `image_url`, 3 `alt_text`.
pub proof fn lemma_create_product_image_request_fields(m: CreateProductImageRequest)
    ensures
        CreateProductImageRequest::spec_schema() == seq![Kind::Int64, Kind::Str, Kind::Str],
        m.spec_values() == seq![
            ScalarValue::Int64(m.product_id),
            ScalarValue::Str(m.image_url@),
            ScalarValue::Str(m.alt_text@),
        ],
{
}

/// The fields of `GetProductImageRequest` by number: 1 `image_id`.
pub proof fn lemma_get_product_image_request_fields(m: GetProductImageRequest)
    ensures
        GetProductImageRequest::spec_schema() == seq![Kind::Int64],
        m.spec_values() == seq![
            ScalarValue::Int64(m.image_id),
        ],
{
}

/// The fields of `UpdateProductImageRequest` by number: 1 `image_id`, 2 `product_id`, 3 `image_url`, 4 `alt_text`.
pub proof fn lemma_update_product_image_request_fields(m: UpdateProductImageRequest)
    ensures
        UpdateProductImageRequest::spec_schema() == seq![Kind::Int64, Kind::OptInt64, Kind::OptStr, Kind::OptStr],
        m.spec_values() == seq![
            ScalarValue::Int64(m.image_id),
            ScalarValue::OptInt64(m.product_id),
            ScalarValue::OptStr(opt_chars(m.image_url)),
            ScalarValue::OptStr(opt_chars(m.alt_text)),
        ],
{
}

/// The fields of `DeleteProductImageRequest` by number: 1 `image_id`.
pub proof fn lemma_delete_product_image_request_fields(m: DeleteProductImageRequest)
    ensures
        DeleteProductImageRequest::spec_schema() == seq![Kind::Int64],
        m.spec_values() == seq![
            ScalarValue::Int64(m.image_id),
        ],
{
}

/// The fields of `ProductImageResponse` by number: 1 `image_id`, 2 `product_id`, 3 `image_url`, 4 `alt_text`.
pub proof fn lemma_product_image_response_fields(m: ProductImageResponse)
    ensures
        ProductImageResponse::spec_schema() == seq![Kind::Int64, Kind::Int64, Kind::Str, Kind::Str],
        m.spec_values() == seq![
            ScalarValue::Int64(m.image_id),
            ScalarValue::Int64(m.product_id),
            ScalarValue::Str(m.image_url@),
            ScalarValue::Str(m.alt_text@),
        ],
{
}

/// `ProductImagesResponse` holds its entries, in order, in its field `items` (number 1),
/// each a `ProductImageResponse`.
pub proof fn lemma_product_images_response_fields(m: ProductImagesResponse)
    ensures
        m.spec_items() == m.items@,
{
}

/// The fields of `CreateSupplierRequest` by number: 1 `name`, 2 `contact_info`, 3 `address`.
pub proof fn lemma_create_supplier_request_fields(m: CreateSupplierRequest)
    ensures
        CreateSupplierRequest::spec_schema() == seq![Kind::Str, Kind::Str, Kind::Str],
        m.spec_values() == seq![
            ScalarValue::Str(m.name@),
            ScalarValue::Str(m.contact_info@),
            ScalarValue::Str(m.address@),
        ],
{
}

/// The fields of `GetSupplierRequest` by number: 1 `supplier_id`.
pub proof fn lemma_get_supplier_request_fields(m: GetSupplierRequest)
    ensures
        GetSupplierRequest::spec_schema() == seq![Kind::Int64],
        m.spec_values() == seq![
            ScalarValue::Int64(m.supplier_id),
        ],
{
}

/// The fields of `UpdateSupplierRequest` by number: 1 `supplier_id`, 2 `name`, 3 `contact_info`, 4 `address`.
pub proof fn lemma_update_supplier_request_fields(m: UpdateSupplierRequest)
    ensures
        UpdateSupplierRequest::spec_schema() == seq![Kind::Int64, Kind::OptStr, Kind::OptStr, Kind::OptStr],
        m.spec_values() == seq![
            ScalarValue::Int64(m.supplier_id),
            ScalarValue::OptStr(opt_chars(m.name)),
            ScalarValue::OptStr(opt_chars(m.contact_info)),
            ScalarValue::OptStr(opt_chars(m.address)),
        ],
{
}

/// The fields of `DeleteSupplierRequest` by number: 1 `supplier_id`.
pub proof fn lemma_delete_supplier_request_fields(m: DeleteSupplierRequest)
    ensures
        DeleteSupplierRequest::spec_schema() == seq![Kind::Int64],
        m.spec_values() == seq![
            ScalarValue::Int64(m.supplier_id),
        ],
{
}

/// The fields of `SupplierResponse` by number: 1 `supplier_id`, 2 `name`, 3 `contact_info`, 4 `address`.
pub proof fn lemma_supplier_response_fields(m: SupplierResponse)
    ensures
        SupplierResponse::spec_schema() == seq![Kind::Int64, Kind::Str, Kind::Str, Kind::Str],
        m.spec_values() == seq![
            ScalarValue::Int64(m.supplier_id),
            ScalarValue::Str(m.name@),
            ScalarValue::Str(m.contact_info@),
            ScalarValue::Str(m.address@),
        ],
{
}

/// `SuppliersResponse` holds its entries, in order, in its field `items` (number 1),
/// each a `SupplierResponse`.
pub proof fn lemma_suppliers_response_fields(m: SuppliersResponse)
    ensures
        m.spec_items() == m.items@,
{
}

/// The fields of `CreateInventoryItemRequest` by number: 1 `product_id`, 2 `quantity_available`, 3 `reorder_level`, 4 `supplier_id`.
pub proof fn lemma_create_inventory_item_request_fields(m: CreateInventoryItemRequest)
    ensures
        CreateInventoryItemRequest::spec_schema() == seq![Kind::Int64, Kind::Int64, Kind::Int64, Kind::Int64],
        m.spec_values() == seq![
            ScalarValue::Int64(m.product_id),
            ScalarValue::Int64(m.quantity_available),
            ScalarValue::Int64(m.reorder_level),
            ScalarValue::Int64(m.supplier_id),
        ],
{
}

/// The fields of `GetInventoryItemRequest` by number: 1 `inventory_id`.
pub proof fn lemma_get_inventory_item_request_fields(m: GetInventoryItemRequest)
    ensures
        GetInventoryItemRequest::spec_schema() == seq![Kind::Int64],
        m.spec_values() == seq![
            ScalarValue::Int64(m.inventory_id),
        ],
{
}

/// The fields of `UpdateInventoryItemRequest` by number: 1 `inventory_id`, 2 `product_id`, 3 `quantity_available`, 4 `reorder_level`, 5 `supplier_id`.
pub proof fn lemma_update_inventory_item_request_fields(m: UpdateInventoryItemRequest)
    ensures
        UpdateInventoryItemRequest::spec_schema() == seq![Kind::Int64, Kind::OptInt64, Kind::OptInt64, Kind::OptInt64, Kind::OptInt64],
        m.spec_values() == seq![
            ScalarValue::Int64(m.inventory_id),
            ScalarValue::OptInt64(m.product_id),
            ScalarValue::OptInt64(m.quantity_available),
            ScalarValue::OptInt64(m.reorder_level),
            ScalarValue::OptInt64(m.supplier_id),
        ],
{
}

/// The fields of `DeleteInventoryItemRequest` by number: 1 `inventory_id`.
pub proof fn lemma_delete_inventory_item_request_fields(m: DeleteInventoryItemRequest)
    ensures
        DeleteInventoryItemRequest::spec_schema() == seq![Kind::Int64],
        m.spec_values() == seq![
            ScalarValue::Int64(m.inventory_id),
        ],
{
}

/// The fields of `InventoryItemResponse` by number: 1 `inventory_id`, 2 `product_id`, 3 `quantity_available`, 4 `reorder_level`, 5 `supplier_id`.
pub proof fn lemma_inventory_item_response_fields(m: InventoryItemResponse)
    ensures
        InventoryItemResponse::spec_schema() == seq![Kind::Int64, Kind::Int64, Kind::Int64, Kind::Int64, Kind::Int64],
        m.spec_values() == seq![
            ScalarValue::Int64(m.inventory_id),
            ScalarValue::Int64(m.product_id),
            ScalarValue::Int64(m.quantity_available),
            ScalarValue::Int64(m.reorder_level),
            ScalarValue::Int64(m.supplier_id),
        ],
{
}

/// `InventoryItemsResponse` holds its entries, in order, in its field `items` (number 1),
/// each a `InventoryItemResponse`.
pub proof fn lemma_inventory_items_response_fields(m: InventoryItemsResponse)
    ensures
        m.spec_items() == m.items@,
{
}

/// The fields of `CreateWishlistItemRequest` by number: 1 `user_id`, 2 `product_id`, 3 `date_added`.
pub proof fn lemma_create_wishlist_item_request_fields(m: CreateWishlistItemRequest)
    ensures
        CreateWishlistItemRequest::spec_schema() == seq![Kind::Int64, Kind::Int64, Kind::Str],
        m.spec_values() == seq![
            ScalarValue::Int64(m.user_id),
            ScalarValue::Int64(m.product_id),
            ScalarValue::Str(m.date_added@),
        ],
{
}

/// The fields of `GetWishlistItemRequest` by number: 1 `wishlist_id`.
pub proof fn lemma_get_wishlist_item_request_fields(m: GetWishlistItemRequest)
    ensures
        GetWishlistItemRequest::spec_schema() == seq![Kind::Int64],
        m.spec_values() == seq![
            ScalarValue::Int64(m.wishlist_id),
        ],
{
}

/// The fields of `UpdateWishlistItemRequest` by number: 1 `wishlist_id`, 2 `user_id`, 3 `product_id`, 4 `date_added`.
pub proof fn lemma_update_wishlist_item_request_fields(m: UpdateWishlistItemRequest)
    ensures
        UpdateWishlistItemRequest::spec_schema() == seq![Kind::Int64, Kind::OptInt64, Kind::OptInt64, Kind::OptStr],
        m.spec_values() == seq![
            ScalarValue::Int64(m.wishlist_id),
            ScalarValue::OptInt64(m.user_id),
            ScalarValue::OptInt64(m.product_id),
            ScalarValue::OptStr(opt_chars(m.date_added)),
        ],
{
}

/// The fields of `DeleteWishlistItemRequest` by number: 1 `wishlist_id`.
pub proof fn lemma_delete_wishlist_item_request_fields(m: DeleteWishlistItemRequest)
    ensures
        DeleteWishlistItemRequest::spec_schema() == seq![Kind::Int64],
        m.spec_values() == seq![
            ScalarValue::Int64(m.wishlist_id),
        ],
{
}

/// The fields of `WishlistItemResponse` by number: 1 `wishlist_id`, 2 `user_id`, 3 `product_id`, 4 `date_added`.
pub proof fn lemma_wishlist_item_response_fields(m: WishlistItemResponse)
    ensures
        WishlistItemResponse::spec_schema() == seq![Kind::Int64, Kind::Int64, Kind::Int64, Kind::Str],
        m.spec_values() == seq![
            ScalarValue::Int64(m.wishlist_id),
            ScalarValue::Int64(m.user_id),
            ScalarValue::Int64(m.product_id),
            ScalarValue::Str(m.date_added@),
        ],
{
}

/// `WishlistItemsResponse` holds its entries, in order, in its field `items` (number 1),
/// each a `WishlistItemResponse`.
pub proof fn lemma_wishlist_items_response_fields(m: WishlistItemsResponse)
    ensures
        m.spec_items() == m.items@,
{
}

/// The fields of `CreateProductAttributeRequest` by number: 1 `product_id`, 2 `attribute_name`, 3 `attribute_value`.
pub proof fn lemma_create_product_attribute_request_fields(m: CreateProductAttributeRequest)
    ensures
        CreateProductAttributeRequest::spec_schema() == seq![Kind::Int64, Kind::Str, Kind::Str],
        m.spec_values() == seq![
            ScalarValue::Int64(m.product_id),
            ScalarValue::Str(m.attribute_name@),
            ScalarValue::Str(m.attribute_value@),
        ],
{
}

/// The fields of `GetProductAttributeRequest` by number: 1 `attribute_id`.
pub proof fn lemma_get_product_attribute_request_fields(m: GetProductAttributeRequest)
    ensures
        GetProductAttributeRequest::spec_schema() == seq![Kind::Int64],
        m.spec_values() == seq![
            ScalarValue::Int64(m.attribute_id),
        ],
{
}

/// The fields of `UpdateProductAttributeRequest` by number: 1 `attribute_id`, 2 `product_id`, 3 `attribute_name`, 4 `attribute_value`.
pub proof fn lemma_update_product_attribute_request_fields(m: UpdateProductAttributeRequest)
    ensures
        UpdateProductAttributeRequest::spec_schema() == seq![Kind::Int64, Kind::OptInt64, Kind::OptStr, Kind::OptStr],
        m.spec_values() == seq![
            ScalarValue::Int64(m.attribute_id),
            ScalarValue::OptInt64(m.product_id),
            ScalarValue::OptStr(opt_chars(m.attribute_name)),
            ScalarValue::OptStr(opt_chars(m.attribute_value)),
        ],
{
}

/// The fields of `DeleteProductAttributeRequest` by number: 1 `attribute_id`.
pub proof fn lemma_delete_product_attribute_request_fields(m: DeleteProductAttributeRequest)
    ensures
        DeleteProductAttributeRequest::spec_schema() == seq![Kind::Int64],
        m.spec_values() == seq![
            ScalarValue::Int64(m.attribute_id),
        ],
{
}

/// The fields of `ProductAttributeResponse` by number: 1 `attribute_id`, 2 `product_id`, 3 `attribute_name`, 4 `attribute_value`.
pub proof fn lemma_product_attribute_response_fields(m: ProductAttributeResponse)
    ensures
        ProductAttributeResponse::spec_schema() == seq![Kind::Int64, Kind::Int64, Kind::Str, Kind::Str],
        m.spec_values() == seq![
            ScalarValue::Int64(m.attribute_id),
            ScalarValue::Int64(m.product_id),
            ScalarValue::Str(m.attribute_name@),
            ScalarValue::Str(m.attribute_value@),
        ],
{
}

/// `ProductAttributesResponse` holds its entries, in order, in its field `items` (number 1),
/// each a `ProductAttributeResponse`.
pub proof fn lemma_product_attributes_response_fields(m: ProductAttributesResponse)
    ensures
        m.spec_items() == m.items@,
{
}

/// The fields of `CreateDiscountRequest` by number: 1 `product_id`, 2 `discount_percentage`, 3 `start_date`, 4 `end_date`.
pub proof fn lemma_create_discount_request_fields(m: CreateDiscountRequest)
    ensures
        CreateDiscountRequest::spec_schema() == seq![Kind::Int64, Kind::Double, Kind::Str, Kind::Str],
        m.spec_values() == seq![
            ScalarValue::Int64(m.product_id),
            ScalarValue::Double(m.discount_percentage),
            ScalarValue::Str(m.start_date@),
            ScalarValue::Str(m.end_date@),
        ],
{
}

/// The fields of `GetDiscountRequest` by number: 1 `discount_id`.
pub proof fn lemma_get_discount_request_fields(m: GetDiscountRequest)
    ensures
        GetDiscountRequest::spec_schema() == seq![Kind::Int64],
        m.spec_values() == seq![
            ScalarValue::Int64(m.discount_id),
        ],
{
}

/// The fields of `UpdateDiscountRequest` by number: 1 `discount_id`, 2 `product_id`, 3 `discount_percentage`, 4 `start_date`, 5 `end_date`.
pub proof fn lemma_update_discount_request_fields(m: UpdateDiscountRequest)
    ensures
        UpdateDiscountRequest::spec_schema() == seq![Kind::Int64, Kind::OptInt64, Kind::OptDouble, Kind::OptStr, Kind::OptStr],
        m.spec_values() == seq![
            ScalarValue::Int64(m.discount_id),
            ScalarValue::OptInt64(m.product_id),
            ScalarValue::OptDouble(m.discount_percentage),
            ScalarValue::OptStr(opt_chars(m.start_date)),
            ScalarValue::OptStr(opt_chars(m.end_date)),
        ],
{
}

/// The fields of `DeleteDiscountRequest` by number: 1 `discount_id`.
pub proof fn lemma_delete_discount_request_fields(m: DeleteDiscountRequest)
    ensures
        DeleteDiscountRequest::spec_schema() == seq![Kind::Int64],
        m.spec_values() == seq![
            ScalarValue::Int64(m.discount_id),
        ],
{
}

/// The fields of `DiscountResponse` by number: 1 `discount_id`, 2 `product_id`, 3 `discount_percentage`, 4 `start_date`, 5 `end_date`.
pub proof fn lemma_discount_response_fields(m: DiscountResponse)
    ensures
        DiscountResponse::spec_schema() == seq![Kind::Int64, Kind::Int64, Kind::Double, Kind::Str, Kind::Str],
        m.spec_values() == seq![
            ScalarValue::Int64(m.discount_id),
            ScalarValue::Int64(m.product_id),
            ScalarValue::Double(m.discount_percentage),
            ScalarValue::Str(m.start_date@),
            ScalarValue::Str(m.end_date@),
        ],
{
}

/// `DiscountsResponse` holds its entries, in order, in its field `items` (number 1),
/// each a `DiscountResponse`.
pub proof fn lemma_discounts_response_fields(m: DiscountsResponse)
    ensures
        m.spec_items() == m.items@,
{
}

/// The fields of `CreateShippingMethodRequest` by number: 1 `method_name`, 2 `cost`, 3 `estimated_delivery_time`.
pub proof fn lemma_create_shipping_method_request_fields(m: CreateShippingMethodRequest)
    ensures
        CreateShippingMethodRequest::spec_schema() == seq![Kind::Str, Kind::Double, Kind::Str],
        m.spec_values() == seq![
            ScalarValue::Str(m.method_name@),
            ScalarValue::Double(m.cost),
            ScalarValue::Str(m.estimated_delivery_time@),
        ],
{
}

/// The fields of `GetShippingMethodRequest` by number: 1 `method_id`.
pub proof fn lemma_get_shipping_method_request_fields(m: GetShippingMethodRequest)
    ensures
        GetShippingMethodRequest::spec_schema() == seq![Kind::Int64],
        m.spec_values() == seq![
            ScalarValue::Int64(m.method_id),
        ],
{
}

/// The fields of `UpdateShippingMethodRequest` by number: 1 `method_id`, 2 `method_name`, 3 `cost`, 4 `estimated_delivery_time`.
pub proof fn lemma_update_shipping_method_request_fields(m: UpdateShippingMethodRequest)
    ensures
        UpdateShippingMethodRequest::spec_schema() == seq![Kind::Int64, Kind::OptStr, Kind::OptDouble, Kind::OptStr],
        m.spec_values() == seq![
            ScalarValue::Int64(m.method_id),
            ScalarValue::OptStr(opt_chars(m.method_name)),
            ScalarValue::OptDouble(m.cost),
            ScalarValue::OptStr(opt_chars(m.estimated_delivery_time)),
        ],
{
}

/// The fields of `DeleteShippingMethodRequest` by number: 1 `method_id`.
pub proof fn lemma_delete_shipping_method_request_fields(m: DeleteShippingMethodRequest)
    ensures
        DeleteShippingMethodRequest::spec_schema() == seq![Kind::Int64],
        m.spec_values() == seq![
            ScalarValue::Int64(m.method_id),
        ],
{
}

/// The fields of `ShippingMethodResponse` by number: 1 `method_id`, 2 `method_name`, 3 `cost`, 4 `estimated_delivery_time`.
pub proof fn lemma_shipping_method_response_fields(m: ShippingMethodResponse)
    ensures
        ShippingMethodResponse::spec_schema() == seq![Kind::Int64, Kind::Str, Kind::Double, Kind::Str],
        m.spec_values() == seq![
            ScalarValue::Int64(m.method_id),
            ScalarValue::Str(m.method_name@),
            ScalarValue::Double(m.cost),
            ScalarValue::Str(m.estimated_delivery_time@),
        ],
{
}

/// `ShippingMethodsResponse` holds its entries, in order, in its field `items` (number 1),
/// each a `ShippingMethodResponse`.
pub proof fn lemma_shipping_methods_response_fields(m: ShippingMethodsResponse)
    ensures
        m.spec_items() == m.items@,
{
}

/// The fields of `CreateUserRoleRequest` by number: 1 `role_name`.
pub proof fn lemma_create_user_role_request_fields(m: CreateUserRoleRequest)
    ensures
        CreateUserRoleRequest::spec_schema() == seq![Kind::Str],
        m.spec_values() == seq![
            ScalarValue::Str(m.role_name@),
        ],
{
}

/// The fields of `GetUserRoleRequest` by number: 1 `role_id`.
pub proof fn lemma_get_user_role_request_fields(m: GetUserRoleRequest)
    ensures
        GetUserRoleRequest::spec_schema() == seq![Kind::Int64],
        m.spec_values() == seq![
            ScalarValue::Int64(m.role_id),
        ],
{
}

/// The fields of `UpdateUserRoleRequest` by number: 1 `role_id`, 2 `role_name`.
pub proof fn lemma_update_user_role_request_fields(m: UpdateUserRoleRequest)
    ensures
        UpdateUserRoleRequest::spec_schema() == seq![Kind::Int64, Kind::Str],
        m.spec_values() == seq![
            ScalarValue::Int64(m.role_id),
            ScalarValue::Str(m.role_name@),
        ],
{
}

/// The fields of `DeleteUserRoleRequest` by number: 1 `role_id`.
pub proof fn lemma_delete_user_role_request_fields(m: DeleteUserRoleRequest)
    ensures
        DeleteUserRoleRequest::spec_schema() == seq![Kind::Int64],
        m.spec_values() == seq![
            ScalarValue::Int64(m.role_id),
        ],
{
}

/// The fields of `UserRoleResponse` by number: 1 `role_id`, 2 `role_name`.
pub proof fn lemma_user_role_response_fields(m: UserRoleResponse)
    ensures
        UserRoleResponse::spec_schema() == seq![Kind::Int64, Kind::Str],
        m.spec_values() == seq![
            ScalarValue::Int64(m.role_id),
            ScalarValue::Str(m.role_name@),
        ],
{
}

/// `UserRolesResponse` holds its entries, in order, in its field `items` (number 1),
/// each a `UserRoleResponse`.
pub proof fn lemma_user_roles_response_fields(m: UserRolesResponse)
    ensures
        m.spec_items() == m.items@,
{
}

/// The fields of `CreateUserRolesMappingRequest` by number: 1 `user_id`, 2 `role_id`.
pub proof fn lemma_create_user_roles_mapping_request_fields(m: CreateUserRolesMappingRequest)
    ensures
        CreateUserRolesMappingRequest::spec_schema() == seq![Kind::Int64, Kind::Int64],
        m.spec_values() == seq![
            ScalarValue::Int64(m.user_id),
            ScalarValue::Int64(m.role_id),
        ],
{
}

/// The fields of `GetUserRolesMappingRequest` by number: 1 `id`.
pub proof fn lemma_get_user_roles_mapping_request_fields(m: GetUserRolesMappingRequest)
    ensures
        GetUserRolesMappingRequest::spec_schema() == seq![Kind::Int64],
        m.spec_values() == seq![
            ScalarValue::Int64(m.id),
        ],
{
}

/// The fields of `UpdateUserRolesMappingRequest` by number: 1 `id`, 2 `user_id`, 3 `role_id`.
pub proof fn lemma_update_user_roles_mapping_request_fields(m: UpdateUserRolesMappingRequest)
    ensures
        UpdateUserRolesMappingRequest::spec_schema() == seq![Kind::Int64, Kind::OptInt64, Kind::OptInt64],
        m.spec_values() == seq![
            ScalarValue::Int64(m.id),
            ScalarValue::OptInt64(m.user_id),
            ScalarValue::OptInt64(m.role_id),
        ],
{
}

/// The fields of `DeleteUserRolesMappingRequest` by number: 1 `id`.
pub proof fn lemma_delete_user_roles_mapping_request_fields(m: DeleteUserRolesMappingRequest)
    ensures
        DeleteUserRolesMappingRequest::spec_schema() == seq![Kind::Int64],
        m.spec_values() == seq![
            ScalarValue::Int64(m.id),
        ],
{
}

/// The fields of `UserRolesMappingResponse` by number: 1 `id`, 2 `user_id`, 3 `role_id`.
pub proof fn lemma_user_roles_mapping_response_fields(m: UserRolesMappingResponse)
    ensures
        UserRolesMappingResponse::spec_schema() == seq![Kind::Int64, Kind::Int64, Kind::Int64],
        m.spec_values() == seq![
            ScalarValue::Int64(m.id),
            ScalarValue::Int64(m.user_id),
            ScalarValue::Int64(m.role_id),
        ],
{
}

/// `UserRolesMappingsResponse` holds its entries, in order, in its field `items` (number 1),
/// each a `UserRolesMappingResponse`.
pub proof fn lemma_user_roles_mappings_response_fields(m: UserRolesMappingsResponse)
    ensures
        m.spec_items() == m.items@,
{
}

/// The fields of `CreateTransactionRequest` by number: 1 `user_id`, 2 `amount`.
pub proof fn lemma_create_transaction_request_fields(m: CreateTransactionRequest)
    ensures
        CreateTransactionRequest::spec_schema() == seq![Kind::Int64, Kind::Double],
        m.spec_values() == seq![
            ScalarValue::Int64(m.user_id),
            ScalarValue::Double(m.amount),
        ],
{
}

/// The fields of `GetTransactionRequest` by number: 1 `transaction_id`.
pub proof fn lemma_get_transaction_request_fields(m: GetTransactionRequest)
    ensures
        GetTransactionRequest::spec_schema() == seq![Kind::Int64],
        m.spec_values() == seq![
            ScalarValue::Int64(m.transaction_id),
        ],
{
}

/// The fields of `UpdateTransactionRequest` by number: 1 `transaction_id`, 2 `user_id`, 3 `amount`.
pub proof fn lemma_update_transaction_request_fields(m: UpdateTransactionRequest)
    ensures
        UpdateTransactionRequest::spec_schema() == seq![Kind::Int64, Kind::OptInt64, Kind::OptDouble],
        m.spec_values() == seq![
            ScalarValue::Int64(m.transaction_id),
            ScalarValue::OptInt64(m.user_id),
            ScalarValue::OptDouble(m.amount),
        ],
{
}

/// The fields of `DeleteTransactionRequest` by number: 1 `transaction_id`.
pub proof fn lemma_delete_transaction_request_fields(m: DeleteTransactionRequest)
    ensures
        DeleteTransactionRequest::spec_schema() == seq![Kind::Int64],
        m.spec_values() == seq![
            ScalarValue::Int64(m.transaction_id),
        ],
{
}

/// The fields of `TransactionResponse` by number: 1 `transaction_id`, 2 `user_id`, 3 `amount`, 4 `transaction_date`.
pub proof fn lemma_transaction_response_fields(m: TransactionResponse)
    ensures
        TransactionResponse::spec_schema() == seq![Kind::Int64, Kind::Int64, Kind::Double, Kind::Str],
        m.spec_values() == seq![
            ScalarValue::Int64(m.transaction_id),
            ScalarValue::Int64(m.user_id),
            ScalarValue::Double(m.amount),
            ScalarValue::Str(m.transaction_date@),
        ],
{
}

/// `TransactionsResponse` holds its entries, in order, in its field `items` (number 1),
/// each a `TransactionResponse`.
pub proof fn lemma_transactions_response_fields(m: TransactionsResponse)
    ensures
        m.spec_items() == m.items@,
{
}

/// The fields of `CreateNewsletterSubscriberRequest` by number: 1 `email`.
pub proof fn lemma_create_newsletter_subscriber_request_fields(m: CreateNewsletterSubscriberRequest)
    ensures
        CreateNewsletterSubscriberRequest::spec_schema() == seq![Kind::Str],
        m.spec_values() == seq![
            ScalarValue::Str(m.email@),
        ],
{
}

/// The fields of `GetNewsletterSubscriberRequest` by number: 1 `subscriber_id`.
pub proof fn lemma_get_newsletter_subscriber_request_fields(m: GetNewsletterSubscriberRequest)
    ensures
        GetNewsletterSubscriberRequest::spec_schema() == seq![Kind::Int64],
        m.spec_values() == seq![
            ScalarValue::Int64(m.subscriber_id),
        ],
{
}

/// The fields of `UpdateNewsletterSubscriberRequest` by number: 1 `subscriber_id`, 2 `email`.
pub proof fn lemma_update_newsletter_subscriber_request_fields(m: UpdateNewsletterSubscriberRequest)
    ensures
        UpdateNewsletterSubscriberRequest::spec_schema() == seq![Kind::Int64, Kind::Str],
        m.spec_values() == seq![
            ScalarValue::Int64(m.subscriber_id),
            ScalarValue::Str(m.email@),
        ],
{
}

/// The fields of `DeleteNewsletterSubscriberRequest` by number: 1 `subscriber_id`.
pub proof fn lemma_delete_newsletter_subscriber_request_fields(m: DeleteNewsletterSubscriberRequest)
    ensures
        DeleteNewsletterSubscriberRequest::spec_schema() == seq![Kind::Int64],
        m.spec_values() == seq![
            ScalarValue::Int64(m.subscriber_id),
        ],
{
}

/// The fields of `NewsletterSubscriberResponse` by number: 1 `subscriber_id`, 2 `email`, 3 `subscription_date`.
pub proof fn lemma_newsletter_subscriber_response_fields(m: NewsletterSubscriberResponse)
    ensures
        NewsletterSubscriberResponse::spec_schema() == seq![Kind::Int64, Kind::Str, Kind::Str],
        m.spec_values() == seq![
            ScalarValue::Int64(m.subscriber_id),
            ScalarValue::Str(m.email@),
            ScalarValue::Str(m.subscription_date@),
        ],
{
}

/// `NewsletterSubscribersResponse` holds its entries, in order, in its field `items` (number 1),
/// each a `NewsletterSubscriberResponse`.
pub proof fn lemma_newsletter_subscribers_response_fields(m: NewsletterSubscribersResponse)
    ensures
        m.spec_items() == m.items@,
{
}

/// The fields of `CreateProductRatingRequest` by number: 1 `product_id`, 2 `user_id`, 3 `rating`.
pub proof fn lemma_create_product_rating_request_fields(m: CreateProductRatingRequest)
    ensures
        CreateProductRatingRequest::spec_schema() == seq![Kind::Int64, Kind::Int64, Kind::Int64],
        m.spec_values() == seq![
            ScalarValue::Int64(m.product_id),
            ScalarValue::Int64(m.user_id),
            ScalarValue::Int64(m.rating),
        ],
{
}

/// The fields of `GetProductRatingRequest` by number: 1 `rating_id`.
pub proof fn lemma_get_product_rating_request_fields(m: GetProductRatingRequest)
    ensures
        GetProductRatingRequest::spec_schema() == seq![Kind::Int64],
        m.spec_values() == seq![
            ScalarValue::Int64(m.rating_id),
        ],
{
}

/// The fields of `UpdateProductRatingRequest` by number: 1 `rating_id`, 2 `product_id`, 3 `user_id`, 4 `rating`.
pub proof fn lemma_update_product_rating_request_fields(m: UpdateProductRatingRequest)
    ensures
        UpdateProductRatingRequest::spec_schema() == seq![Kind::Int64, Kind::OptInt64, Kind::OptInt64, Kind::OptInt64],
        m.spec_values() == seq![
            ScalarValue::Int64(m.rating_id),
            ScalarValue::OptInt64(m.product_id),
            ScalarValue::OptInt64(m.user_id),
            ScalarValue::OptInt64(m.rating),
        ],
{
}

/// The fields of `DeleteProductRatingRequest` by number: 1 `rating_id`.
pub proof fn lemma_delete_product_rating_request_fields(m: DeleteProductRatingRequest)
    ensures
        DeleteProductRatingRequest::spec_schema() == seq![Kind::Int64],
        m.spec_values() == seq![
            ScalarValue::Int64(m.rating_id),
        ],
{
}

/// The fields of `ProductRatingResponse` by number: 1 `rating_id`, 2 `product_id`, 3 `user_id`, 4 `rating`.
pub proof fn lemma_product_rating_response_fields(m: ProductRatingResponse)
    ensures
        ProductRatingResponse::spec_schema() == seq![Kind::Int64, Kind::Int64, Kind::Int64, Kind::Int64],
        m.spec_values() == seq![
            ScalarValue::Int64(m.rating_id),
            ScalarValue::Int64(m.product_id),
            ScalarValue::Int64(m.user_id),
            ScalarValue::Int64(m.rating),
        ],
{
}

/// `ProductRatingsResponse` holds its entries, in order, in its field `items` (number 1),
/// each a `ProductRatingResponse`.
pub proof fn lemma_product_ratings_response_fields(m: ProductRatingsResponse)
    ensures
        m.spec_items() == m.items@,
{
}

/// The fields of `CreateSizeRequest` by number: 1 `size_name`.
pub proof fn lemma_create_size_request_fields(m: CreateSizeRequest)
    ensures
        CreateSizeRequest::spec_schema() == seq![Kind::Str],
        m.spec_values() == seq![
            ScalarValue::Str(m.size_name@),
        ],
{
}

/// The fields of `GetSizeRequest` by number: 1 `size_id`.
pub proof fn lemma_get_size_request_fields(m: GetSizeRequest)
    ensures
        GetSizeRequest::spec_schema() == seq![Kind::Int64],
        m.spec_values() == seq![
            ScalarValue::Int64(m.size_id),
        ],
{
}

/// The fields of `UpdateSizeRequest` by number: 1 `size_id`, 2 `size_name`.
pub proof fn lemma_update_size_request_fields(m: UpdateSizeRequest)
    ensures
        UpdateSizeRequest::spec_schema() == seq![Kind::Int64, Kind::Str],
        m.spec_values() == seq![
            ScalarValue::Int64(m.size_id),
            ScalarValue::Str(m.size_name@),
        ],
{
}

/// The fields of `DeleteSizeRequest` by number: 1 `size_id`.
pub proof fn lemma_delete_size_request_fields(m: DeleteSizeRequest)
    ensures
        DeleteSizeRequest::spec_schema() == seq![Kind::Int64],
        m.spec_values() == seq![
            ScalarValue::Int64(m.size_id),
        ],
{
}

/// The fields of `SizeResponse` by number: 1 `size_id`, 2 `size_name`.
pub proof fn lemma_size_response_fields(m: SizeResponse)
    ensures
        SizeResponse::spec_schema() == seq![Kind::Int64, Kind::Str],
        m.spec_values() == seq![
            ScalarValue::Int64(m.size_id),
            ScalarValue::Str(m.size_name@),
        ],
{
}

/// `SizesResponse` holds its entries, in order, in its field `items` (number 1),
/// each a `SizeResponse`.
pub proof fn lemma_sizes_response_fields(m: SizesResponse)
    ensures
        m.spec_items() == m.items@,
{
}

/// The fields of `CreateColorRequest` by number: 1 `color_name`.
pub proof fn lemma_create_color_request_fields(m: CreateColorRequest)
    ensures
        CreateColorRequest::spec_schema() == seq![Kind::Str],
        m.spec_values() == seq![
            ScalarValue::Str(m.color_name@),
        ],
{
}

/// The fields of `GetColorRequest` by number: 1 `color_id`.
pub proof fn lemma_get_color_request_fields(m: GetColorRequest)
    ensures
        GetColorRequest::spec_schema() == seq![Kind::Int64],
        m.spec_values() == seq![
            ScalarValue::Int64(m.color_id),
        ],
{
}

/// The fields of `UpdateColorRequest` by number: 1 `color_id`, 2 `color_name`.
pub proof fn lemma_update_color_request_fields(m: UpdateColorRequest)
    ensures
        UpdateColorRequest::spec_schema() == seq![Kind::Int64, Kind::Str],
        m.spec_values() == seq![
            ScalarValue::Int64(m.color_id),
            ScalarValue::Str(m.color_name@),
        ],
{
}

/// The fields of `DeleteColorRequest` by number: 1 `color_id`.
pub proof fn lemma_delete_color_request_fields(m: DeleteColorRequest)
    ensures
        DeleteColorRequest::spec_schema() == seq![Kind::Int64],
        m.spec_values() == seq![
            ScalarValue::Int64(m.color_id),
        ],
{
}

/// The fields of `ColorResponse` by number: 1 `color_id`, 2 `color_name`.
pub proof fn lemma_color_response_fields(m: ColorResponse)
    ensures
        ColorResponse::spec_schema() == seq![Kind::Int64, Kind::Str],
        m.spec_values() == seq![
            ScalarValue::Int64(m.color_id),
            ScalarValue::Str(m.color_name@),
        ],
{
}

/// `ColorsResponse` holds its entries, in order, in its field `items` (number 1),
/// each a `ColorResponse`.
pub proof fn lemma_colors_response_fields(m: ColorsResponse)
    ensures
        m.spec_items() == m.items@,
{
}

/// The fields of `CreateProductCategoryMappingRequest` by number: 1 `product_id`, 2 `category_id`.
pub proof fn lemma_create_product_category_mapping_request_fields(m: CreateProductCategoryMappingRequest)
    ensures
        CreateProductCategoryMappingRequest::spec_schema() == seq![Kind::Int64, Kind::Int64],
        m.spec_values() == seq![
            ScalarValue::Int64(m.product_id),
            ScalarValue::Int64(m.category_id),
        ],
{
}

/// The fields of `GetProductCategoryMappingRequest` by number: 1 `product_id`, 2 `category_id`.
pub proof fn lemma_get_product_category_mapping_request_fields(m: GetProductCategoryMappingRequest)
    ensures
        GetProductCategoryMappingRequest::spec_schema() == seq![Kind::Int64, Kind::Int64],
        m.spec_values() == seq![
            ScalarValue::Int64(m.product_id),
            ScalarValue::Int64(m.category_id),
        ],
{
}

/// The fields of `DeleteProductCategoryMappingRequest` by number: 1 `product_id`, 2 `category_id`.
pub proof fn lemma_delete_product_category_mapping_request_fields(m: DeleteProductCategoryMappingRequest)
    ensures
        DeleteProductCategoryMappingRequest::spec_schema() == seq![Kind::Int64, Kind::Int64],
        m.spec_values() == seq![
            ScalarValue::Int64(m.product_id),
            ScalarValue::Int64(m.category_id),
        ],
{
}

/// The fields of `ProductCategoryMappingResponse` by number: 1 `product_id`, 2 `category_id`.
pub proof fn lemma_product_category_mapping_response_fields(m: ProductCategoryMappingResponse)
    ensures
        ProductCategoryMappingResponse::spec_schema() == seq![Kind::Int64, Kind::Int64],
        m.spec_values() == seq![
            ScalarValue::Int64(m.product_id),
            ScalarValue::Int64(m.category_id),
        ],
{
}

/// `ProductCategoryMappingsResponse` holds its entries, in order, in its field `items` (number 1),
/// each a `ProductCategoryMappingResponse`.
pub proof fn lemma_product_category_mappings_response_fields(m: ProductCategoryMappingsResponse)
    ensures
        m.spec_items() == m.items@,
{
}

/// The fields of `CreateProductAttributeMappingRequest` by number: 1 `product_id`, 2 `attribute_id`.
pub proof fn lemma_create_product_attribute_mapping_request_fields(m: CreateProductAttributeMappingRequest)
    ensures
        CreateProductAttributeMappingRequest::spec_schema() == seq![Kind::Int64, Kind::Int64],
        m.spec_values() == seq![
            ScalarValue::Int64(m.product_id),
            ScalarValue::Int64(m.attribute_id),
        ],
{
}

/// The fields of `GetProductAttributeMappingRequest` by number: 1 `product_id`, 2 `attribute_id`.
pub proof fn lemma_get_product_attribute_mapping_request_fields(m: GetProductAttributeMappingRequest)
    ensures
        GetProductAttributeMappingRequest::spec_schema() == seq![Kind::Int64, Kind::Int64],
        m.spec_values() == seq![
            ScalarValue::Int64(m.product_id),
            ScalarValue::Int64(m.attribute_id),
        ],
{
}

/// The fields of `DeleteProductAttributeMappingRequest` by number: 1 `product_id`, 2 `attribute_id`.
pub proof fn lemma_delete_product_attribute_mapping_request_fields(m: DeleteProductAttributeMappingRequest)
    ensures
        DeleteProductAttributeMappingRequest::spec_schema() == seq![Kind::Int64, Kind::Int64],
        m.spec_values() == seq![
            ScalarValue::Int64(m.product_id),
            ScalarValue::Int64(m.attribute_id),
        ],
{
}

/// The fields of `ProductAttributeMappingResponse` by number: 1 `product_id`, 2 `attribute_id`.
pub proof fn lemma_product_attribute_mapping_response_fields(m: ProductAttributeMappingResponse)
    ensures
        ProductAttributeMappingResponse::spec_schema() == seq![Kind::Int64, Kind::Int64],
        m.spec_values() == seq![
            ScalarValue::Int64(m.product_id),
            ScalarValue::Int64(m.attribute_id),
        ],
{
}

/// `ProductAttributeMappingsResponse` holds its entries, in order, in its field `items` (number 1),
/// each a `ProductAttributeMappingResponse`.
pub proof fn lemma_product_attribute_mappings_response_fields(m: ProductAttributeMappingsResponse)
    ensures
        m.spec_items() == m.items@,
{
}

/// The fields of `CreateUserRoleMappingRequest` by number: 1 `user_id`, 2 `role_id`.
pub proof fn lemma_create_user_role_mapping_request_fields(m: CreateUserRoleMappingRequest)
    ensures
        CreateUserRoleMappingRequest::spec_schema() == seq![Kind::Int64, Kind::Int64],
        m.spec_values() == seq![
            ScalarValue::Int64(m.user_id),
            ScalarValue::Int64(m.role_id),
        ],
{
}

/// The fields of `GetUserRoleMappingRequest` by number: 1 `user_id`, 2 `role_id`.
pub proof fn lemma_get_user_role_mapping_request_fields(m: GetUserRoleMappingRequest)
    ensures
        GetUserRoleMappingRequest::spec_schema() == seq![Kind::Int64, Kind::Int64],
        m.spec_values() == seq![
            ScalarValue::Int64(m.user_id),
            ScalarValue::Int64(m.role_id),
        ],
{
}

/// The fields of `DeleteUserRoleMappingRequest` by number: 1 `user_id`, 2 `role_id`.
pub proof fn lemma_delete_user_role_mapping_request_fields(m: DeleteUserRoleMappingRequest)
    ensures
        DeleteUserRoleMappingRequest::spec_schema() == seq![Kind::Int64, Kind::Int64],
        m.spec_values() == seq![
            ScalarValue::Int64(m.user_id),
            ScalarValue::Int64(m.role_id),
        ],
{
}

/// The fields of `UserRoleMappingResponse` by number: 1 `user_id`, 2 `role_id`.
pub proof fn lemma_user_role_mapping_response_fields(m: UserRoleMappingResponse)
    ensures
        UserRoleMappingResponse::spec_schema() == seq![Kind::Int64, Kind::Int64],
        m.spec_values() == seq![
            ScalarValue::Int64(m.user_id),
            ScalarValue::Int64(m.role_id),
        ],
{
}

/// `UserRoleMappingsResponse` holds its entries, in order, in its field `items` (number 1),
/// each a `UserRoleMappingResponse`.
pub proof fn lemma_user_role_mappings_response_fields(m: UserRoleMappingsResponse)
    ensures
        m.spec_items() == m.items@,
{
}

/// The fields of `CreateProductSizeMappingRequest` by number: 1 `product_id`, 2 `size_id`.
pub proof fn lemma_create_product_size_mapping_request_fields(m: CreateProductSizeMappingRequest)
    ensures
        CreateProductSizeMappingRequest::spec_schema() == seq![Kind::Int64, Kind::Int64],
        m.spec_values() == seq![
            ScalarValue::Int64(m.product_id),
            ScalarValue::Int64(m.size_id),
        ],
{
}

/// The fields of `GetProductSizeMappingRequest` by number: 1 `product_id`, 2 `size_id`.
pub proof fn lemma_get_product_size_mapping_request_fields(m: GetProductSizeMappingRequest)
    ensures
        GetProductSizeMappingRequest::spec_schema() == seq![Kind::Int64, Kind::Int64],
        m.spec_values() == seq![
            ScalarValue::Int64(m.product_id),
            ScalarValue::Int64(m.size_id),
        ],
{
}

/// The fields of `DeleteProductSizeMappingRequest` by number: 1 `product_id`, 2 `size_id`.
pub proof fn lemma_delete_product_size_mapping_request_fields(m: DeleteProductSizeMappingRequest)
    ensures
        DeleteProductSizeMappingRequest::spec_schema() == seq![Kind::Int64, Kind::Int64],
        m.spec_values() == seq![
            ScalarValue::Int64(m.product_id),
            ScalarValue::Int64(m.size_id),
        ],
{
}

/// The fields of `ProductSizeMappingResponse` by number: 1 `product_id`, 2 `size_id`.
pub proof fn lemma_product_size_mapping_response_fields(m: ProductSizeMappingResponse)
    ensures
        ProductSizeMappingResponse::spec_schema() == seq![Kind::Int64, Kind::Int64],
        m.spec_values() == seq![
            ScalarValue::Int64(m.product_id),
            ScalarValue::Int64(m.size_id),
        ],
{
}

/// `ProductSizeMappingsResponse` holds its entries, in order, in its field `items` (number 1),
/// each a `ProductSizeMappingResponse`.
pub proof fn lemma_product_size_mappings_response_fields(m: ProductSizeMappingsResponse)
    ensures
        m.spec_items() == m.items@,
{
}

/// The fields of `CreateProductColorMappingRequest` by number: 1 `product_id`, 2 `color_id`.
pub proof fn lemma_create_product_color_mapping_request_fields(m: CreateProductColorMappingRequest)
    ensures
        CreateProductColorMappingRequest::spec_schema() == seq![Kind::Int64, Kind::Int64],
        m.spec_values() == seq![
            ScalarValue::Int64(m.product_id),
            ScalarValue::Int64(m.color_id),
        ],
{
}

/// The fields of `GetProductColorMappingRequest` by number: 1 `product_id`, 2 `color_id`.
pub proof fn lemma_get_product_color_mapping_request_fields(m: GetProductColorMappingRequest)
    ensures
        GetProductColorMappingRequest::spec_schema() == seq![Kind::Int64, Kind::Int64],
        m.spec_values() == seq![
            ScalarValue::Int64(m.product_id),
            ScalarValue::Int64(m.color_id),
        ],
{
}

/// The fields of `DeleteProductColorMappingRequest` by number: 1 `product_id`, 2 `color_id`.
pub proof fn lemma_delete_product_color_mapping_request_fields(m: DeleteProductColorMappingRequest)
    ensures
        DeleteProductColorMappingRequest::spec_schema() == seq![Kind::Int64, Kind::Int64],
        m.spec_values() == seq![
            ScalarValue::Int64(m.product_id),
            ScalarValue::Int64(m.color_id),
        ],
{
}

/// The fields of `ProductColorMappingResponse` by number: 1 `product_id`, 2 `color_id`.
pub proof fn lemma_product_color_mapping_response_fields(m: ProductColorMappingResponse)
    ensures
        ProductColorMappingResponse::spec_schema() == seq![Kind::Int64, Kind::Int64],
        m.spec_values() == seq![
            ScalarValue::Int64(m.product_id),
            ScalarValue::Int64(m.color_id),
        ],
{
}

/// `ProductColorMappingsResponse` holds its entries, in order, in its field `items` (number 1),
/// each a `ProductColorMappingResponse`.
pub proof fn lemma_product_color_mappings_response_fields(m: ProductColorMappingsResponse)
    ensures
        m.spec_items() == m.items@,
{
}

/// The fields of `CreateProductVariantRequest` by number: 1 `product_id`, 2 `size_id`, 3 `color_id`, 4 `additional_price`.
pub proof fn lemma_create_product_variant_request_fields(m: CreateProductVariantRequest)
    ensures
        CreateProductVariantRequest::spec_schema() == seq![Kind::Int64, Kind::OptInt64, Kind::OptInt64, Kind::OptDouble],
        m.spec_values() == seq![
            ScalarValue::Int64(m.product_id),
            ScalarValue::OptInt64(m.size_id),
            ScalarValue::OptInt64(m.color_id),
            ScalarValue::OptDouble(m.additional_price),
        ],
{
}

/// The fields of `GetProductVariantRequest` by number: 1 `variant_id`.
pub proof fn lemma_get_product_variant_request_fields(m: GetProductVariantRequest)
    ensures
        GetProductVariantRequest::spec_schema() == seq![Kind::Int64],
        m.spec_values() == seq![
            ScalarValue::Int64(m.variant_id),
        ],
{
}

/// The fields of `UpdateProductVariantRequest` by number: 1 `variant_id`, 2 `product_id`, 3 `size_id`, 4 `color_id`, 5 `additional_price`.
pub proof fn lemma_update_product_variant_request_fields(m: UpdateProductVariantRequest)
    ensures
        UpdateProductVariantRequest::spec_schema() == seq![Kind::Int64, Kind::OptInt64, Kind::OptInt64, Kind::OptInt64, Kind::OptDouble],
        m.spec_values() == seq![
            ScalarValue::Int64(m.variant_id),
            ScalarValue::OptInt64(m.product_id),
            ScalarValue::OptInt64(m.size_id),
            ScalarValue::OptInt64(m.color_id),
            ScalarValue::OptDouble(m.additional_price),
        ],
{
}

/// The fields of `DeleteProductVariantRequest` by number: 1 `variant_id`.
pub proof fn lemma_delete_product_variant_request_fields(m: DeleteProductVariantRequest)
    ensures
        DeleteProductVariantRequest::spec_schema() == seq![Kind::Int64],
        m.spec_values() == seq![
            ScalarValue::Int64(m.variant_id),
        ],
{
}

/// The fields of `ProductVariantResponse` by number: 1 `variant_id`, 2 `product_id`, 3 `size_id`, 4 `color_id`, 5 `additional_price`.
pub proof fn lemma_product_variant_response_fields(m: ProductVariantResponse)
    ensures
        ProductVariantResponse::spec_schema() == seq![Kind::Int64, Kind::Int64, Kind::OptInt64, Kind::OptInt64, Kind::OptDouble],
        m.spec_values() == seq![
            ScalarValue::Int64(m.variant_id),
            ScalarValue::Int64(m.product_id),
            ScalarValue::OptInt64(m.size_id),
            ScalarValue::OptInt64(m.color_id),
            ScalarValue::OptDouble(m.additional_price),
        ],
{
}

/// `ProductVariantsResponse` holds its entries, in order, in its field `items` (number 1),
/// each a `ProductVariantResponse`.
pub proof fn lemma_product_variants_response_fields(m: ProductVariantsResponse)
    ensures
        m.spec_items() == m.items@,
{
}

/// The fields of `CreateEventLogRequest` by number: 1 `event_type`, 2 `event_description`, 3 `user_id`.
pub proof fn lemma_create_event_log_request_fields(m: CreateEventLogRequest)
    ensures
        CreateEventLogRequest::spec_schema() == seq![Kind::Str, Kind::Str, Kind::Int64],
        m.spec_values() == seq![
            ScalarValue::Str(m.event_type@),
            ScalarValue::Str(m.event_description@),
            ScalarValue::Int64(m.user_id),
        ],
{
}

/// The fields of `GetEventLogRequest` by number: 1 `log_id`.
pub proof fn lemma_get_event_log_request_fields(m: GetEventLogRequest)
    ensures
        GetEventLogRequest::spec_schema() == seq![Kind::Int64],
        m.spec_values() == seq![
            ScalarValue::Int64(m.log_id),
        ],
{
}

/// The fields of `UpdateEventLogRequest` by number: 1 `log_id`, 2 `event_type`, 3 `event_description`, 4 `user_id`.
pub proof fn lemma_update_event_log_request_fields(m: UpdateEventLogRequest)
    ensures
        UpdateEventLogRequest::spec_schema() == seq![Kind::Int64, Kind::OptStr, Kind::OptStr, Kind::OptInt64],
        m.spec_values() == seq![
            ScalarValue::Int64(m.log_id),
            ScalarValue::OptStr(opt_chars(m.event_type)),
            ScalarValue::OptStr(opt_chars(m.event_description)),
            ScalarValue::OptInt64(m.user_id),
        ],
{
}

/// The fields of `DeleteEventLogRequest` by number: 1 `log_id`.
pub proof fn lemma_delete_event_log_request_fields(m: DeleteEventLogRequest)
    ensures
        DeleteEventLogRequest::spec_schema() == seq![Kind::Int64],
        m.spec_values() == seq![
            ScalarValue::Int64(m.log_id),
        ],
{
}

/// The fields of `EventLogResponse` by number: 1 `log_id`, 2 `event_type`, 3 `event_description`, 4 `user_id`, 5 `event_time`.
pub proof fn lemma_event_log_response_fields(m: EventLogResponse)
    ensures
        EventLogResponse::spec_schema() == seq![Kind::Int64, Kind::Str, Kind::Str, Kind::Int64, Kind::Str],
        m.spec_values() == seq![
            ScalarValue::Int64(m.log_id),
            ScalarValue::Str(m.event_type@),
            ScalarValue::Str(m.event_description@),
            ScalarValue::Int64(m.user_id),
            ScalarValue::Str(m.event_time@),
        ],
{
}

/// `EventLogsResponse` holds its entries, in order, in its field `items` (number 1),
/// each a `EventLogResponse`.
pub proof fn lemma_event_logs_response_fields(m: EventLogsResponse)
    ensures
        m.spec_items() == m.items@,
{
}

/// The fields of `CreateUserActivityRequest` by number: 1 `user_id`, 2 `activity_type`, 3 `activity_details`.
pub proof fn lemma_create_user_activity_request_fields(m: CreateUserActivityRequest)
    ensures
        CreateUserActivityRequest::spec_schema() == seq![Kind::Int64, Kind::Str, Kind::Str],
        m.spec_values() == seq![
            ScalarValue::Int64(m.user_id),
            ScalarValue::Str(m.activity_type@),
            ScalarValue::Str(m.activity_details@),
        ],
{
}

/// The fields of `GetUserActivityRequest` by number: 1 `activity_id`.
pub proof fn lemma_get_user_activity_request_fields(m: GetUserActivityRequest)
    ensures
        GetUserActivityRequest::spec_schema() == seq![Kind::Int64],
        m.spec_values() == seq![
            ScalarValue::Int64(m.activity_id),
        ],
{
}

/// The fields of `UpdateUserActivityRequest` by number: 1 `activity_id`, 2 `user_id`, 3 `activity_type`, 4 `activity_details`.
pub proof fn lemma_update_user_activity_request_fields(m: UpdateUserActivityRequest)
    ensures
        UpdateUserActivityRequest::spec_schema() == seq![Kind::Int64, Kind::OptInt64, Kind::OptStr, Kind::OptStr],
        m.spec_values() == seq![
            ScalarValue::Int64(m.activity_id),
            ScalarValue::OptInt64(m.user_id),
            ScalarValue::OptStr(opt_chars(m.activity_type)),
            ScalarValue::OptStr(opt_chars(m.activity_details)),
        ],
{
}

/// The fields of `DeleteUserActivityRequest` by number: 1 `activity_id`.
pub proof fn lemma_delete_user_activity_request_fields(m: DeleteUserActivityRequest)
    ensures
        DeleteUserActivityRequest::spec_schema() == seq![Kind::Int64],
        m.spec_values() == seq![
            ScalarValue::Int64(m.activity_id),
        ],
{
}

/// The fields of `UserActivityResponse` by number: 1 `activity_id`, 2 `user_id`, 3 `activity_type`, 4 `activity_time`, 5 `activity_details`.
pub proof fn lemma_user_activity_response_fields(m: UserActivityResponse)
    ensures
        UserActivityResponse::spec_schema() == seq![Kind::Int64, Kind::Int64, Kind::Str, Kind::Str, Kind::Str],
        m.spec_values() == seq![
            ScalarValue::Int64(m.activity_id),
            ScalarValue::Int64(m.user_id),
            ScalarValue::Str(m.activity_type@),
            ScalarValue::Str(m.activity_time@),
            ScalarValue::Str(m.activity_details@),
        ],
{
}

/// `UserActivitiesResponse` holds its entries, in order, in its field `items` (number 1),
/// each a `UserActivityResponse`.
pub proof fn lemma_user_activities_response_fields(m: UserActivitiesResponse)
    ensures
        m.spec_items() == m.items@,
{
}

/// The fields of `CreateInventoryLogRequest` by number: 1 `product_id`, 2 `change_quantity`, 3 `reason`.
pub proof fn lemma_create_inventory_log_request_fields(m: CreateInventoryLogRequest)
    ensures
        CreateInventoryLogRequest::spec_schema() == seq![Kind::Int64, Kind::Int64, Kind::Str],
        m.spec_values() == seq![
            ScalarValue::Int64(m.product_id),
            ScalarValue::Int64(m.change_quantity),
            ScalarValue::Str(m.reason@),
        ],
{
}

/// The fields of `GetInventoryLogRequest` by number: 1 `log_id`.
pub proof fn lemma_get_inventory_log_request_fields(m: GetInventoryLogRequest)
    ensures
        GetInventoryLogRequest::spec_schema() == seq![Kind::Int64],
        m.spec_values() == seq![
            ScalarValue::Int64(m.log_id),
        ],
{
}

/// The fields of `UpdateInventoryLogRequest` by number: 1 `log_id`, 2 `product_id`, 3 `change_quantity`, 4 `reason`.
pub proof fn lemma_update_inventory_log_request_fields(m: UpdateInventoryLogRequest)
    ensures
        UpdateInventoryLogRequest::spec_schema() == seq![Kind::Int64, Kind::OptInt64, Kind::OptInt64, Kind::OptStr],
        m.spec_values() == seq![
            ScalarValue::Int64(m.log_id),
            ScalarValue::OptInt64(m.product_id),
            ScalarValue::OptInt64(m.change_quantity),
            ScalarValue::OptStr(opt_chars(m.reason)),
        ],
{
}

/// The fields of `DeleteInventoryLogRequest` by number: 1 `log_id`.
pub proof fn lemma_delete_inventory_log_request_fields(m: DeleteInventoryLogRequest)
    ensures
        DeleteInventoryLogRequest::spec_schema() == seq![Kind::Int64],
        m.spec_values() == seq![
            ScalarValue::Int64(m.log_id),
        ],
{
}

/// The fields of `InventoryLogResponse` by number: 1 `log_id`, 2 `product_id`, 3 `change_quantity`, 4 `log_time`, 5 `reason`.
pub proof fn lemma_inventory_log_response_fields(m: InventoryLogResponse)
    ensures
        InventoryLogResponse::spec_schema() == seq![Kind::Int64, Kind::Int64, Kind::Int64, Kind::Str, Kind::Str],
        m.spec_values() == seq![
            ScalarValue::Int64(m.log_id),
            ScalarValue::Int64(m.product_id),
            ScalarValue::Int64(m.change_quantity),
            ScalarValue::Str(m.log_time@),
            ScalarValue::Str(m.reason@),
        ],
{
}

/// `InventoryLogsResponse` holds its entries, in order, in its field `items` (number 1),
/// each a `InventoryLogResponse`.
pub proof fn lemma_inventory_logs_response_fields(m: InventoryLogsResponse)
    ensures
        m.spec_items() == m.items@,
{
}

/// The fields of `CreatePromotionRequest` by number: 1 `promotion_name`, 2 `start_date`, 3 `end_date`, 4 `details`.
pub proof fn lemma_create_promotion_request_fields(m: CreatePromotionRequest)
    ensures
        CreatePromotionRequest::spec_schema() == seq![Kind::Str, Kind::Str, Kind::Str, Kind::Str],
        m.spec_values() == seq![
            ScalarValue::Str(m.promotion_name@),
            ScalarValue::Str(m.start_date@),
            ScalarValue::Str(m.end_date@),
            ScalarValue::Str(m.details@),
        ],
{
}

/// The fields of `GetPromotionRequest` by number: 1 `promotion_id`.
pub proof fn lemma_get_promotion_request_fields(m: GetPromotionRequest)
    ensures
        GetPromotionRequest::spec_schema() == seq![Kind::Int64],
        m.spec_values() == seq![
            ScalarValue::Int64(m.promotion_id),
        ],
{
}

/// The fields of `UpdatePromotionRequest` by number: 1 `promotion_id`, 2 `promotion_name`, 3 `start_date`, 4 `end_date`, 5 `details`.
pub proof fn lemma_update_promotion_request_fields(m: UpdatePromotionRequest)
    ensures
        UpdatePromotionRequest::spec_schema() == seq![Kind::Int64, Kind::OptStr, Kind::OptStr, Kind::OptStr, Kind::OptStr],
        m.spec_values() == seq![
            ScalarValue::Int64(m.promotion_id),
            ScalarValue::OptStr(opt_chars(m.promotion_name)),
            ScalarValue::OptStr(opt_chars(m.start_date)),
            ScalarValue::OptStr(opt_chars(m.end_date)),
            ScalarValue::OptStr(opt_chars(m.details)),
        ],
{
}

/// The fields of `DeletePromotionRequest` by number: 1 `promotion_id`.
pub proof fn lemma_delete_promotion_request_fields(m: DeletePromotionRequest)
    ensures
        DeletePromotionRequest::spec_schema() == seq![Kind::Int64],
        m.spec_values() == seq![
            ScalarValue::Int64(m.promotion_id),
        ],
{
}

/// The fields of `PromotionResponse` by number: 1 `promotion_id`, 2 `promotion_name`, 3 `start_date`, 4 `end_date`, 5 `details`.
pub proof fn lemma_promotion_response_fields(m: PromotionResponse)
    ensures
        PromotionResponse::spec_schema() == seq![Kind::Int64, Kind::Str, Kind::Str, Kind::Str, Kind::Str],
        m.spec_values() == seq![
            ScalarValue::Int64(m.promotion_id),
            ScalarValue::Str(m.promotion_name@),
            ScalarValue::Str(m.start_date@),
            ScalarValue::Str(m.end_date@),
            ScalarValue::Str(m.details@),
        ],
{
}

/// `PromotionsResponse` holds its entries, in order, in its field `items` (number 1),
/// each a `PromotionResponse`.
pub proof fn lemma_promotions_response_fields(m: PromotionsResponse)
    ensures
        m.spec_items() == m.items@,
{
}

/// The fields of `CreateShippingZoneRequest` by number: 1 `zone_name`, 2 `description`.
pub proof fn lemma_create_shipping_zone_request_fields(m: CreateShippingZoneRequest)
    ensures
        CreateShippingZoneRequest::spec_schema() == seq![Kind::Str, Kind::Str],
        m.spec_values() == seq![
            ScalarValue::Str(m.zone_name@),
            ScalarValue::Str(m.description@),
        ],
{
}

/// The fields of `GetShippingZoneRequest` by number: 1 `zone_id`.
pub proof fn lemma_get_shipping_zone_request_fields(m: GetShippingZoneRequest)
    ensures
        GetShippingZoneRequest::spec_schema() == seq![Kind::Int64],
        m.spec_values() == seq![
            ScalarValue::Int64(m.zone_id),
        ],
{
}

/// The fields of `UpdateShippingZoneRequest` by number: 1 `zone_id`, 2 `zone_name`, 3 `description`.
pub proof fn lemma_update_shipping_zone_request_fields(m: UpdateShippingZoneRequest)
    ensures
        UpdateShippingZoneRequest::spec_schema() == seq![Kind::Int64, Kind::OptStr, Kind::OptStr],
        m.spec_values() == seq![
            ScalarValue::Int64(m.zone_id),
            ScalarValue::OptStr(opt_chars(m.zone_name)),
            ScalarValue::OptStr(opt_chars(m.description)),
        ],
{
}

/// The fields of `DeleteShippingZoneRequest` by number: 1 `zone_id`.
pub proof fn lemma_delete_shipping_zone_request_fields(m: DeleteShippingZoneRequest)
    ensures
        DeleteShippingZoneRequest::spec_schema() == seq![Kind::Int64],
        m.spec_values() == seq![
            ScalarValue::Int64(m.zone_id),
        ],
{
}

/// The fields of `ShippingZoneResponse` by number: 1 `zone_id`, 2 `zone_name`, 3 `description`.
pub proof fn lemma_shipping_zone_response_fields(m: ShippingZoneResponse)
    ensures
        ShippingZoneResponse::spec_schema() == seq![Kind::Int64, Kind::Str, Kind::Str],
        m.spec_values() == seq![
            ScalarValue::Int64(m.zone_id),
            ScalarValue::Str(m.zone_name@),
            ScalarValue::Str(m.description@),
        ],
{
}

/// `ShippingZonesResponse` holds its entries, in order, in its field `items` (number 1),
/// each a `ShippingZoneResponse`.
pub proof fn lemma_shipping_zones_response_fields(m: ShippingZonesResponse)
    ensures
        m.spec_items() == m.items@,
{
}

/// The fields of `CreatePaymentMethodRequest` by number: 1 `method_name`, 2 `details`.
pub proof fn lemma_create_payment_method_request_fields(m: CreatePaymentMethodRequest)
    ensures
        CreatePaymentMethodRequest::spec_schema() == seq![Kind::Str, Kind::Str],
        m.spec_values() == seq![
            ScalarValue::Str(m.method_name@),
            ScalarValue::Str(m.details@),
        ],
{
}

/// The fields of `GetPaymentMethodRequest` by number: 1 `method_id`.
pub proof fn lemma_get_payment_method_request_fields(m: GetPaymentMethodRequest)
    ensures
        GetPaymentMethodRequest::spec_schema() == seq![Kind::Int64],
        m.spec_values() == seq![
            ScalarValue::Int64(m.method_id),
        ],
{
}

/// The fields of `UpdatePaymentMethodRequest` by number: 1 `method_id`, 2 `method_name`, 3 `details`.
pub proof fn lemma_update_payment_method_request_fields(m: UpdatePaymentMethodRequest)
    ensures
        UpdatePaymentMethodRequest::spec_schema() == seq![Kind::Int64, Kind::OptStr, Kind::OptStr],
        m.spec_values() == seq![
            ScalarValue::Int64(m.method_id),
            ScalarValue::OptStr(opt_chars(m.method_name)),
            ScalarValue::OptStr(opt_chars(m.details)),
        ],
{
}

/// The fields of `DeletePaymentMethodRequest` by number: 1 `method_id`.
pub proof fn lemma_delete_payment_method_request_fields(m: DeletePaymentMethodRequest)
    ensures
        DeletePaymentMethodRequest::spec_schema() == seq![Kind::Int64],
        m.spec_values() == seq![
            ScalarValue::Int64(m.method_id),
        ],
{
}

/// The fields of `PaymentMethodResponse` by number: 1 `method_id`, 2 `method_name`, 3 `details`.
pub proof fn lemma_payment_method_response_fields(m: PaymentMethodResponse)
    ensures
        PaymentMethodResponse::spec_schema() == seq![Kind::Int64, Kind::Str, Kind::Str],
        m.spec_values() == seq![
            ScalarValue::Int64(m.method_id),
            ScalarValue::Str(m.method_name@),
            ScalarValue::Str(m.details@),
        ],
{
}

/// `PaymentMethodsResponse` holds its entries, in order, in its field `items` (number 1),
/// each a `PaymentMethodResponse`.
pub proof fn lemma_payment_methods_response_fields(m: PaymentMethodsResponse)
    ensures
        m.spec_items() == m.items@,
{
}

} // verus!
